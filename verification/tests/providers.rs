use std::sync::atomic::{AtomicBool, AtomicUsize, Ordering};
use std::sync::{Arc, Mutex};

use local_rag::embedder_provider::{probe_onnx, LazyEmbedderProvider, LazyProvider, ProviderProbe};
use local_rag::query_embedder::{embed_query, last_vector, LazyQueryEmbedder};

#[test]
fn each_kind_opens_its_session_exactly_once() {
    let code_opens = Arc::new(AtomicUsize::new(0));
    let memory_opens = Arc::new(AtomicUsize::new(0));
    let (c, m) = (Arc::clone(&code_opens), Arc::clone(&memory_opens));

    let mut provider = LazyEmbedderProvider::with_probes(
        move || {
            c.fetch_add(1, Ordering::SeqCst);
            ProviderProbe::Ready(Arc::new("code"))
        },
        move || {
            m.fetch_add(1, Ordering::SeqCst);
            ProviderProbe::Ready(Arc::new("memory"))
        },
    );

    let first = provider.code().expect("ready");
    for _ in 0..3 {
        let again = provider.code().expect("ready");
        assert!(
            Arc::ptr_eq(&first, &again),
            "the *same* session must be handed back, not just any open one"
        );
    }
    for _ in 0..3 {
        provider.memory().expect("ready");
    }

    assert_eq!(code_opens.load(Ordering::SeqCst), 1);
    assert_eq!(memory_opens.load(Ordering::SeqCst), 1);
}

#[test]
fn a_kind_that_is_not_installed_yet_is_probed_again_until_it_appears() {
    let installed = Arc::new(AtomicBool::new(false));
    let opens = Arc::new(AtomicUsize::new(0));
    let (seen, counted) = (Arc::clone(&installed), Arc::clone(&opens));

    let mut provider = LazyEmbedderProvider::with_probes(
        move || {
            counted.fetch_add(1, Ordering::SeqCst);
            if seen.load(Ordering::SeqCst) {
                ProviderProbe::Ready(Arc::new("code"))
            } else {
                ProviderProbe::NotInstalled
            }
        },
        || ProviderProbe::NotInstalled,
    );

    assert!(provider.code().is_none());
    installed.store(true, Ordering::SeqCst);
    assert!(provider.code().is_some());
    assert!(provider.code().is_some());
    assert_eq!(opens.load(Ordering::SeqCst), 2, "latched after the first Ready");
}

#[test]
fn a_kind_that_will_not_open_is_never_reopened() {
    let opens = Arc::new(AtomicUsize::new(0));
    let counted = Arc::clone(&opens);

    let mut provider: LazyEmbedderProvider<&str, _, _> = LazyEmbedderProvider::with_probes(
        move || {
            counted.fetch_add(1, Ordering::SeqCst);
            ProviderProbe::Unusable
        },
        || ProviderProbe::NotInstalled,
    );

    for _ in 0..3 {
        assert!(provider.code().is_none());
    }
    assert_eq!(opens.load(Ordering::SeqCst), 1, "an unopenable provider must not be retried");
}

#[test]
fn the_two_kinds_probe_independently() {
    let mut provider = LazyEmbedderProvider::with_probes(
        || ProviderProbe::Ready(Arc::new("code")),
        || ProviderProbe::NotInstalled,
    );

    assert!(provider.code().is_some());
    assert!(provider.memory().is_none());
}

#[test]
fn the_production_constructor_answers_none_on_an_empty_store() {
    let empty = || probe_onnx(Some("m"), false, || Ok("session"), "code").0;
    let mut provider = LazyEmbedderProvider::with_probes(empty, empty);
    assert!(provider.code().is_none());
    assert!(provider.memory().is_none());
}

#[test]
fn a_model_that_does_not_open_is_reported_and_unusable() {
    let (probe, warning) =
        probe_onnx(Some("m"), true, || Err::<&str, String>("bad weights".to_string()), "code");
    assert!(matches!(probe, ProviderProbe::Unusable));
    let warning = warning.expect("a failure to open is reported");
    assert!(warning.contains("bad weights"), "{warning}");

    let (probe, warning) = probe_onnx(Some("m"), true, || Ok("session"), "code");
    assert!(matches!(probe, ProviderProbe::Ready(_)));
    assert_eq!(warning, None);
}

#[test]
fn a_provider_is_adapted_only_where_it_is_open() {
    let wrap = |n: Arc<u32>| Arc::new(*n + 1);
    match ProviderProbe::Ready(Arc::new(1u32)).adapt(&wrap) {
        ProviderProbe::Ready(n) => assert_eq!(*n, 2),
        other => panic!("expected an open provider, got {other:?}"),
    }
    assert!(matches!(ProviderProbe::NotInstalled.adapt(&wrap), ProviderProbe::NotInstalled));
    assert!(matches!(ProviderProbe::Unusable.adapt(&wrap), ProviderProbe::Unusable));
}

#[test]
fn what_is_found_stays_found() {
    let looks = Arc::new(AtomicUsize::new(0));
    let counted = Arc::clone(&looks);
    let mut lazy = LazyProvider::new(move || {
        if counted.fetch_add(1, Ordering::SeqCst) == 0 {
            ProviderProbe::NotInstalled
        } else {
            ProviderProbe::Ready(Arc::new("here"))
        }
    });
    assert!(matches!(lazy.state(), ProviderProbe::NotInstalled));
    assert!(lazy.ready().is_some());
    assert!(lazy.ready().is_some());
    assert_eq!(looks.load(Ordering::SeqCst), 2);
}

#[test]
fn embeds_the_query_when_the_key_matches() {
    let out = embed_query(true, "test-model", "test-model", || Ok(vec![vec![1.0f32, 0.0, 0.0]]))
        .expect("matching key succeeds");
    assert_eq!(out, vec![1.0, 0.0, 0.0]);
}

#[test]
fn refuses_a_mismatched_key_rather_than_silently_answering() {
    let err = embed_query(false, "test-model", "some-other-model", || {
        Ok(vec![vec![1.0f32, 0.0, 0.0]])
    })
    .expect_err("mismatched key must refuse");
    assert!(err.contains("does not match"), "{err}");
}

#[test]
fn memory_adapter_embeds_the_query_when_the_key_matches() {
    let out = embed_query(true, "test-model", "test-model", || Ok(vec![vec![0.0f32, 1.0, 0.0]]))
        .expect("matching key succeeds");
    assert_eq!(out, vec![0.0, 1.0, 0.0]);
}

#[test]
fn memory_adapter_refuses_a_mismatched_key_rather_than_silently_answering() {
    let err = embed_query(false, "test-model", "some-other-model", || {
        Ok(vec![vec![0.0f32, 1.0, 0.0]])
    })
    .expect_err("mismatched key must refuse");
    assert!(err.contains("does not match"), "{err}");
}

#[test]
fn an_embedder_that_returns_no_vector_is_an_error() {
    assert_eq!(
        last_vector::<Vec<f32>>(Ok(vec![])),
        Err("embedder returned no vector for the query".to_string())
    );
    assert_eq!(last_vector(Ok(vec![1, 2])), Ok(2));
    assert_eq!(last_vector::<u8>(Err("down".to_string())), Err("down".to_string()));
}

#[test]
fn a_provider_that_appears_after_construction_is_picked_up_without_a_restart() {
    let installed = Arc::new(AtomicBool::new(false));
    let seen = Arc::clone(&installed);
    let mut lazy = LazyQueryEmbedder::new(Arc::new(None), move || {
        if seen.load(Ordering::SeqCst) {
            ProviderProbe::Ready(Arc::new(Some(vec![1.0f32, 0.0, 0.0])))
        } else {
            ProviderProbe::NotInstalled
        }
    });

    assert_eq!(*lazy.provider(), None, "nothing installed yet: the dense leg must degrade");
    installed.store(true, Ordering::SeqCst);
    assert_eq!(*lazy.provider(), Some(vec![1.0, 0.0, 0.0]));
}

#[test]
fn the_memory_side_picks_up_a_late_provider_too() {
    let installed = Arc::new(AtomicBool::new(false));
    let seen = Arc::clone(&installed);
    let mut lazy = LazyQueryEmbedder::new(Arc::new("unavailable"), move || {
        if seen.load(Ordering::SeqCst) {
            ProviderProbe::Ready(Arc::new("memory"))
        } else {
            ProviderProbe::NotInstalled
        }
    });

    assert_eq!(*lazy.provider(), "unavailable");
    installed.store(true, Ordering::SeqCst);
    assert_eq!(*lazy.provider(), "memory");
}

#[test]
fn an_open_provider_is_never_reprobed_and_an_unopenable_one_is_never_retried() {
    let probes = Arc::new(AtomicUsize::new(0));

    let counted = Arc::clone(&probes);
    let mut ready = LazyQueryEmbedder::new(Arc::new("unavailable"), move || {
        counted.fetch_add(1, Ordering::SeqCst);
        ProviderProbe::Ready(Arc::new("open"))
    });
    for _ in 0..3 {
        assert_eq!(*ready.provider(), "open");
    }
    assert_eq!(
        probes.load(Ordering::SeqCst),
        1,
        "an already-open provider must not be re-probed per query"
    );

    probes.store(0, Ordering::SeqCst);
    let counted = Arc::clone(&probes);
    let mut broken = LazyQueryEmbedder::new(Arc::new("unavailable"), move || {
        counted.fetch_add(1, Ordering::SeqCst);
        ProviderProbe::Unusable
    });
    for _ in 0..3 {
        assert_eq!(*broken.provider(), "unavailable");
    }
    assert_eq!(
        probes.load(Ordering::SeqCst),
        1,
        "a provider that would not open must not be reopened per query"
    );
}

#[test]
fn the_production_constructors_degrade_when_no_model_is_installed() {
    for leg in ["code", "memory"] {
        let empty = move || probe_onnx(Some("m"), false, || Ok(Some(vec![1.0f32])), leg).0;
        let provider = Arc::new(Mutex::new(LazyEmbedderProvider::with_probes(empty, empty)));
        let mut query = LazyQueryEmbedder::new(Arc::new(None), move || {
            let mut provider = provider.lock().unwrap();
            if leg == "code" {
                provider.code_probe()
            } else {
                provider.memory_probe()
            }
        });
        let session = query.provider();
        let embedded = embed_query(true, "test-model", "test-model", || match session.as_ref() {
            Some(vector) => Ok(vec![vector.clone()]),
            None => Err("no model".to_string()),
        });
        assert!(embedded.is_err(), "an empty store must degrade, not panic or block");
    }
}

#[test]
fn the_query_adapters_and_the_backfill_share_one_session() {
    let opens = Arc::new(AtomicUsize::new(0));
    let counted = Arc::clone(&opens);
    let provider = Arc::new(Mutex::new(LazyEmbedderProvider::with_probes(
        move || {
            counted.fetch_add(1, Ordering::SeqCst);
            ProviderProbe::Ready(Arc::new(vec![1.0f32, 0.0, 0.0]))
        },
        || ProviderProbe::NotInstalled,
    )));

    let shared = Arc::clone(&provider);
    let mut query = LazyQueryEmbedder::new(Arc::new(Vec::new()), move || {
        shared.lock().unwrap().code_probe()
    });
    for _ in 0..3 {
        let session = query.provider();
        let vector = embed_query(true, "m", "m", || Ok(vec![session.to_vec()]));
        assert_eq!(vector, Ok(vec![1.0, 0.0, 0.0]), "the query leg serves");
    }
    let backfill = provider.lock().unwrap().code();
    let backfill = backfill.expect("the backfill leg must see the same session");
    assert!(Arc::ptr_eq(&backfill, &query.provider()));

    assert_eq!(
        opens.load(Ordering::SeqCst),
        1,
        "query adapters and the backfill pool must share one ONNX session per kind"
    );
}

#[test]
fn the_first_look_is_what_the_probe_answers() {
    let looks = Arc::new(AtomicUsize::new(0));
    let counted = Arc::clone(&looks);
    let mut provider = LazyProvider::new(move || {
        counted.fetch_add(1, Ordering::SeqCst);
        ProviderProbe::Ready(Arc::new("session"))
    });
    assert_eq!(looks.load(Ordering::SeqCst), 0, "making one looks for nothing");
    assert!(matches!(provider.state(), ProviderProbe::Ready(found) if *found == "session"));
    assert_eq!(looks.load(Ordering::SeqCst), 1);
}

#[test]
fn being_ready_agrees_with_the_state() {
    let session = Arc::new(7);
    let given = Arc::clone(&session);
    let mut open = LazyProvider::new(move || ProviderProbe::Ready(Arc::clone(&given)));
    let mut missing = LazyProvider::new(|| ProviderProbe::<i32>::NotInstalled);
    let mut unusable = LazyProvider::new(|| ProviderProbe::<i32>::Unusable);
    for _ in 0..2 {
        assert_eq!(open.ready(), Some(Arc::clone(&session)));
        assert!(matches!(open.state(), ProviderProbe::Ready(found) if found == session));
        assert_eq!(missing.ready(), None);
        assert!(matches!(missing.state(), ProviderProbe::NotInstalled));
        assert_eq!(unusable.ready(), None);
        assert!(matches!(unusable.state(), ProviderProbe::Unusable));
    }
}

#[test]
fn answers_come_back_in_their_order() {
    let looks = Arc::new(AtomicUsize::new(0));
    let counted = Arc::clone(&looks);
    let mut provider =
        LazyProvider::new(move || match counted.fetch_add(1, Ordering::SeqCst) {
            0 | 1 => ProviderProbe::NotInstalled,
            n => ProviderProbe::Ready(Arc::new(n)),
        });
    let given: Vec<Option<usize>> = (0..5).map(|_| provider.ready().map(|found| *found)).collect();
    assert_eq!(given, vec![None, None, Some(2), Some(2), Some(2)]);
    assert_eq!(looks.load(Ordering::SeqCst), 3);
}

#[test]
fn two_sessions_are_opened_at_most() {
    let opened = Arc::new(AtomicUsize::new(0));
    let (c, m) = (Arc::clone(&opened), Arc::clone(&opened));
    let mut provider = LazyEmbedderProvider::with_probes(
        move || {
            c.fetch_add(1, Ordering::SeqCst);
            ProviderProbe::Ready(Arc::new("code"))
        },
        move || {
            m.fetch_add(1, Ordering::SeqCst);
            ProviderProbe::Ready(Arc::new("memory"))
        },
    );
    for _ in 0..4 {
        assert!(provider.code().is_some());
        assert!(provider.memory().is_some());
        assert!(matches!(provider.code_probe(), ProviderProbe::Ready(_)));
        assert!(matches!(provider.memory_probe(), ProviderProbe::Ready(_)));
    }
    assert_eq!(opened.load(Ordering::SeqCst), 2);
}
