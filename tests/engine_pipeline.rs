use bytes::Bytes;
use futures_util::{stream, StreamExt};
use ssec_cli::chaff::chaff_stream_settings;
use ssec_cli::transfer::{Action, Event, KeyOutcome, Transfer};
use ssec_core::{ChaffStream, Decrypt, DecryptArgs};

fn runtime() -> tokio::runtime::Runtime {
    tokio::runtime::Builder::new_current_thread().build().unwrap()
}

/// Decrypts a container delivered as `chunks` (an `Err` item is a broken
/// source), driven by the transfer state machine. Returns the final state and
/// what the destination holds afterwards: `None` when nothing was committed.
fn decrypt(chunks: Vec<Result<Vec<u8>, ()>>, password: &[u8]) -> (Transfer, Option<Vec<u8>>) {
    runtime().block_on(async {
        let mut t = Transfer::new();
        assert_eq!(t.step(Event::Prepared), Action::Derive);
        let src = stream::iter(chunks.into_iter().map(|c| {
            c.map(Bytes::from).map_err(|()| std::io::Error::other("connection reset"))
        }));
        let (key, engine) = match Decrypt::new(DecryptArgs::default(), src).await {
            Ok(awaiting) => match awaiting.try_password(password) {
                Ok(s) => (KeyOutcome::Accepted, Some(s)),
                Err(_) => (KeyOutcome::BadPassword, None),
            },
            Err(_) => (KeyOutcome::Failed, None),
        };
        let mut pending = Vec::new();
        let mut action = t.step(Event::Derived { key, output_ready: true });
        if let Some(mut engine) = engine {
            while action == Action::Pull {
                let event = match engine.next().await {
                    Some(Ok(b)) => {
                        pending.extend_from_slice(&b);
                        Event::Chunk(b.len() as u64)
                    },
                    Some(Err(_)) => Event::ChunkFailed,
                    None => Event::EndOfStream,
                };
                action = t.step(event);
            }
        }
        if action == Action::Commit {
            t.step(Event::Committed);
            (t, Some(pending))
        } else {
            (t, None)
        }
    })
}

fn whole(c: &[u8]) -> Vec<Result<Vec<u8>, ()>> {
    vec![Ok(c.to_vec())]
}

#[test]
fn not_a_container_fails() {
    let (t, out) = decrypt(whole(b"definitely not a container"), b"hunter2");
    assert!(matches!(t.outcome(), Some(Err(_))));
    assert_eq!(out, None);
}

#[test]
fn chaff_stream_has_the_chosen_length_in_bounded_chunks() {
    let args = chaff_stream_settings(30 * 1024).unwrap().into_args();
    let chunks: Vec<Bytes> = runtime().block_on(async {
        let mut s = ChaffStream::new(args, getrandom::SysRng);
        let mut out = Vec::new();
        while let Some(b) = s.next().await {
            out.push(b.unwrap());
        }
        out
    });
    let total: usize = chunks.iter().map(|c| c.len()).sum();
    assert_eq!(total, 30 * 1024);
    assert!(chunks.iter().all(|c| c.len() <= 2048));
    assert!(chunks.len() > 1);
}

#[test]
fn chaff_settings_use_the_chunk_size() {
    let args = chaff_stream_settings(31457280).unwrap().into_args();
    let shown = format!("{args:?}");
    assert!(shown.contains("31457130"), "{shown}");
    assert!(shown.contains("2048"), "{shown}");
}

#[test]
fn chaff_settings_bounds() {
    assert!(chaff_stream_settings(149).is_none());
    assert!(chaff_stream_settings(0).is_none());
    let args = chaff_stream_settings(150).unwrap().into_args();
    assert!(format!("{args:?}").contains("output_length: 0"));
}

#[test]
fn smallest_chaff_is_one_header() {
    let args = chaff_stream_settings(150).unwrap().into_args();
    let total: usize = runtime().block_on(async {
        let mut s = ChaffStream::new(args, getrandom::SysRng);
        let mut n = 0;
        while let Some(b) = s.next().await {
            n += b.unwrap().len();
        }
        n
    });
    assert_eq!(total, 150);
}
