//! An endpoint that speaks no protocol: each connection gets one line and is closed.

use vstd::prelude::*;

use crate::json::{Json, JsonMap};
use crate::mode::DaemonMode;

verus! {

/// The line that a connection gets, without its newline.
pub open spec fn greeting(
    instance_uuid: Seq<char>,
    daemon_version: Seq<char>,
    mode: DaemonMode<Seq<char>>,
) -> Seq<char> {
    crate::json::json_text(greeting_value(instance_uuid, daemon_version, mode))
}

/// What the line that a connection gets holds.
pub open spec fn greeting_value(
    instance_uuid: Seq<char>,
    daemon_version: Seq<char>,
    mode: DaemonMode<Seq<char>>,
) -> crate::json::JsonView {
    crate::json::JsonView::Obj(
        crate::json::nothing().push(
            ("instance_uuid"@, crate::json::JsonView::Str(instance_uuid)),
        ).push(("daemon_version"@, crate::json::JsonView::Str(daemon_version))).push(
            ("mode"@, crate::json::JsonView::Str(crate::mode::mode_name(mode))),
        ),
    )
}

/// The line that a connection gets: who answers, and in which mode it runs now.
pub fn greeting_line(instance_uuid: &str, daemon_version: &str, mode: &DaemonMode) -> (r: String)
    ensures
        r@ == greeting(instance_uuid@, daemon_version@, mode@).push('\n'),
{
    let greeting = JsonMap::new().with("instance_uuid", Json::string(instance_uuid)).with(
        "daemon_version",
        Json::string(daemon_version),
    ).with("mode", Json::string(mode.as_str())).json();
    let mut line = greeting.to_text();
    line.push('\n');
    line
}

/// The line says who answers, its version and the name of the mode it runs in.
pub proof fn law_the_line_says_who_answers(
    instance_uuid: Seq<char>,
    daemon_version: Seq<char>,
    mode: DaemonMode<Seq<char>>,
)
    ensures
        ({
            let value = greeting_value(instance_uuid, daemon_version, mode);
            &&& crate::json::has_member(
                value,
                "instance_uuid"@,
                crate::json::JsonView::Str(instance_uuid),
            )
            &&& crate::json::has_member(
                value,
                "daemon_version"@,
                crate::json::JsonView::Str(daemon_version),
            )
            &&& mode is Normal ==> crate::json::has_member(
                value,
                "mode"@,
                crate::json::JsonView::Str("normal"@),
            )
            &&& mode is MigrationOnly ==> crate::json::has_member(
                value,
                "mode"@,
                crate::json::JsonView::Str("migration_only"@),
            )
        }),
{
    let o = greeting_value(instance_uuid, daemon_version, mode)->Obj_0;
    crate::json::lemma_member(o, 0);
    crate::json::lemma_member(o, 1);
    crate::json::lemma_member(o, 2);
}

} // verus!
