use screen_recorder::dx12::{Acquisition, DuplicationState};
use screen_recorder::protocol::{CaptureError, Reply, Request};
use screen_recorder::recorder::{Frame, VideoRecorder, FRAME_PAUSE, FRAME_TIMEOUT};

const POLL: Request = Request::AcquireNextFrame { timeout_ms: 200 };
const PAUSE: Request = Request::Sleep { millis: 1 };
const TIMEOUT: Reply = Reply::Failed { code: -2005270489 };

fn session() -> VideoRecorder {
    let mut acquisition = Acquisition::begin();
    while acquisition.request().is_some() {
        acquisition = acquisition.advance(Reply::Done);
    }
    VideoRecorder::new(acquisition).unwrap()
}

fn surface(width: u32, height: u32) -> Reply {
    Reply::Surface { width, height }
}

/// Plays the host of `recorder`: the graphics stack reports the surfaces
/// `screens` one after another, the handler `callback` gets each frame, and
/// the session is stopped once `screens` has run out. Returns what the loop
/// ended with.
fn capture<F: FnMut(Frame) -> Result<(), i32>>(
    recorder: &mut VideoRecorder,
    screens: &[(u32, u32)],
    mut callback: F,
) -> Result<(), CaptureError> {
    let mut request = Some(recorder.on_frame()?);
    let mut shown = 0;
    while let Some(asked) = request {
        assert_eq!(recorder.request(), Some(asked));
        let reply = match asked {
            Request::AcquireNextFrame { timeout_ms } => {
                assert_eq!(timeout_ms, 200);
                if shown == screens.len() {
                    recorder.stop();
                    TIMEOUT
                } else {
                    Reply::Done
                }
            }
            Request::DescribeFrame => {
                shown += 1;
                surface(screens[shown - 1].0, screens[shown - 1].1)
            }
            Request::InvokeCallback { frame } => match callback(frame) {
                Ok(()) => Reply::Done,
                Err(code) => Reply::Failed { code },
            },
            Request::ReleaseFrame => Reply::Done,
            Request::Sleep { millis } => {
                assert_eq!(millis, 1);
                Reply::Done
            }
            other => panic!("{:?}", other),
        };
        request = recorder.advance(reply)?;
    }
    Ok(())
}

#[test]
fn recorder_on_frame() {
    let mut recorder = session();
    let mut seen = Vec::new();
    let mut request = Some(recorder.on_frame().unwrap());
    assert_eq!(recorder.is_running(), true);
    while let Some(asked) = request {
        let reply = match asked {
            Request::DescribeFrame => surface(1920, 1080),
            Request::InvokeCallback { frame } => {
                assert_eq!(frame.width, 1920);
                assert_eq!(frame.height, 1080);
                seen.push((frame.width, frame.height));
                assert_eq!(recorder.is_running(), true);
                recorder.stop();
                Reply::Done
            }
            _ => Reply::Done,
        };
        request = recorder.advance(reply).unwrap();
    }
    assert_eq!(seen, vec![(1920, 1080)]);
    assert_eq!(recorder.is_running(), false);
}

#[test]
fn loop_constants_are_the_documented_ones() {
    assert_eq!(FRAME_TIMEOUT, 200);
    assert_eq!(FRAME_PAUSE, 1);
}

#[test]
fn fresh_session_is_idle() {
    let recorder = session();
    assert_eq!(recorder.has_frame(), false);
    assert_eq!(recorder.is_running(), false);
    assert_eq!(recorder.request(), None);
}

#[test]
fn has_frame_turns_true_with_the_first_frame() {
    let mut recorder = session();
    assert_eq!(recorder.on_frame(), Ok(POLL));
    assert_eq!(recorder.has_frame(), false);
    assert_eq!(recorder.advance(TIMEOUT), Ok(Some(PAUSE)));
    assert_eq!(recorder.advance(Reply::Done), Ok(Some(POLL)));
    assert_eq!(recorder.has_frame(), false);
    assert_eq!(recorder.advance(Reply::Done), Ok(Some(Request::DescribeFrame)));
    assert_eq!(recorder.has_frame(), false);
    let frame = Frame { width: 1920, height: 1080 };
    assert_eq!(
        recorder.advance(surface(1920, 1080)),
        Ok(Some(Request::InvokeCallback { frame }))
    );
    assert_eq!(recorder.has_frame(), true);
    assert_eq!(recorder.advance(Reply::Done), Ok(Some(Request::ReleaseFrame)));
    assert_eq!(recorder.has_frame(), true);
    assert_eq!(recorder.advance(Reply::Done), Ok(Some(PAUSE)));
    assert_eq!(recorder.advance(Reply::Done), Ok(Some(POLL)));
    assert_eq!(recorder.advance(TIMEOUT), Ok(Some(PAUSE)));
    assert_eq!(recorder.has_frame(), true);
}

#[test]
fn second_start_is_refused() {
    let mut recorder = session();
    assert_eq!(recorder.on_frame(), Ok(POLL));
    assert_eq!(recorder.on_frame(), Err(CaptureError::AlreadyRunning));
    assert_eq!(recorder.is_running(), true);
    assert_eq!(recorder.request(), Some(POLL));
    assert_eq!(recorder.advance(Reply::Done), Ok(Some(Request::DescribeFrame)));
    assert_eq!(recorder.on_frame(), Err(CaptureError::AlreadyRunning));
    assert_eq!(recorder.request(), Some(Request::DescribeFrame));
    assert_eq!(recorder.has_frame(), false);
}

#[test]
fn start_is_refused_until_the_loop_has_exited() {
    let mut recorder = session();
    assert_eq!(recorder.on_frame(), Ok(POLL));
    recorder.stop();
    assert_eq!(recorder.is_running(), false);
    assert_eq!(recorder.on_frame(), Err(CaptureError::AlreadyRunning));
    assert_eq!(recorder.is_running(), false);
    assert_eq!(recorder.advance(TIMEOUT), Ok(Some(PAUSE)));
    assert_eq!(recorder.on_frame(), Err(CaptureError::AlreadyRunning));
    assert_eq!(recorder.advance(Reply::Done), Ok(None));
    assert_eq!(recorder.on_frame(), Ok(POLL));
    assert_eq!(recorder.is_running(), true);
}

#[test]
fn frames_arrive_in_the_order_of_acquisition() {
    let screens: Vec<(u32, u32)> = (1..=50).map(|n| (n, 1000 + n)).collect();
    let mut recorder = session();
    let mut seen = Vec::new();
    let ended = capture(&mut recorder, &screens, |frame| {
        seen.push((frame.width, frame.height));
        Ok(())
    });
    assert_eq!(ended, Ok(()));
    assert_eq!(seen, screens);
    assert_eq!(recorder.has_frame(), true);
    assert_eq!(recorder.is_running(), false);
    assert_eq!(recorder.request(), None);
}

#[test]
fn each_frame_is_released_before_the_next_poll() {
    let mut recorder = session();
    let mut asked = vec![recorder.on_frame().unwrap()];
    let replies = [
        Reply::Done,
        surface(640, 480),
        Reply::Done,
        Reply::Done,
        Reply::Done,
        Reply::Done,
        Reply::Failed { code: 9 },
        Reply::Done,
        Reply::Done,
    ];
    for reply in replies {
        asked.push(recorder.advance(reply).unwrap().unwrap());
    }
    assert_eq!(
        asked,
        vec![
            POLL,
            Request::DescribeFrame,
            Request::InvokeCallback { frame: Frame { width: 640, height: 480 } },
            Request::ReleaseFrame,
            PAUSE,
            POLL,
            Request::DescribeFrame,
            Request::ReleaseFrame,
            PAUSE,
            POLL,
        ]
    );
}

#[test]
fn timeouts_are_absorbed() {
    let mut recorder = session();
    assert_eq!(recorder.on_frame(), Ok(POLL));
    for _ in 0..100 {
        assert_eq!(recorder.advance(TIMEOUT), Ok(Some(PAUSE)));
        assert_eq!(recorder.advance(Reply::Done), Ok(Some(POLL)));
    }
    assert_eq!(recorder.is_running(), true);
    assert_eq!(recorder.has_frame(), false);
}

#[test]
fn undescribed_frame_is_released_unseen() {
    let mut recorder = session();
    assert_eq!(recorder.on_frame(), Ok(POLL));
    assert_eq!(recorder.advance(Reply::Done), Ok(Some(Request::DescribeFrame)));
    assert_eq!(recorder.advance(Reply::Failed { code: 7 }), Ok(Some(Request::ReleaseFrame)));
    assert_eq!(recorder.has_frame(), false);
    assert_eq!(recorder.advance(Reply::Done), Ok(Some(PAUSE)));
    assert_eq!(recorder.is_running(), true);
}

#[test]
fn stop_lets_the_current_turn_finish() {
    let mut recorder = session();
    assert_eq!(recorder.on_frame(), Ok(POLL));
    recorder.stop();
    assert_eq!(recorder.advance(Reply::Done), Ok(Some(Request::DescribeFrame)));
    let frame = Frame { width: 800, height: 600 };
    assert_eq!(recorder.advance(surface(800, 600)), Ok(Some(Request::InvokeCallback { frame })));
    assert_eq!(recorder.advance(Reply::Done), Ok(Some(Request::ReleaseFrame)));
    assert_eq!(recorder.advance(Reply::Done), Ok(Some(PAUSE)));
    assert_eq!(recorder.advance(Reply::Done), Ok(None));
    assert_eq!(recorder.request(), None);
    assert_eq!(recorder.has_frame(), true);
}

#[test]
fn nothing_happens_after_the_loop_has_exited() {
    let mut recorder = session();
    assert_eq!(recorder.on_frame(), Ok(POLL));
    recorder.stop();
    assert_eq!(recorder.advance(TIMEOUT), Ok(Some(PAUSE)));
    assert_eq!(recorder.advance(Reply::Done), Ok(None));
    for reply in [Reply::Done, TIMEOUT, surface(1, 1)] {
        assert_eq!(recorder.advance(reply), Err(CaptureError::UnexpectedReply));
        assert_eq!(recorder.request(), None);
        assert_eq!(recorder.has_frame(), false);
        assert_eq!(recorder.is_running(), false);
    }
}

#[test]
fn stop_of_an_idle_session_changes_nothing() {
    let mut recorder = session();
    recorder.stop();
    assert_eq!(recorder.is_running(), false);
    assert_eq!(recorder.request(), None);
    assert_eq!(recorder.on_frame(), Ok(POLL));
}

#[test]
fn failing_handler_ends_the_loop() {
    let mut recorder = session();
    let mut calls = 0;
    let ended = capture(&mut recorder, &[(1, 1), (2, 2), (3, 3)], |frame| {
        calls += 1;
        if frame.width == 2 {
            Err(-1)
        } else {
            Ok(())
        }
    });
    assert_eq!(ended, Err(CaptureError::CallbackFailed));
    assert_eq!(calls, 2);
    assert_eq!(recorder.is_running(), false);
    assert_eq!(recorder.request(), None);
    assert_eq!(recorder.has_frame(), true);
}

#[test]
fn failing_handler_has_its_frame_released_first() {
    let mut recorder = session();
    assert_eq!(recorder.on_frame(), Ok(POLL));
    assert_eq!(recorder.advance(Reply::Done), Ok(Some(Request::DescribeFrame)));
    let frame = Frame { width: 4, height: 3 };
    assert_eq!(recorder.advance(surface(4, 3)), Ok(Some(Request::InvokeCallback { frame })));
    assert_eq!(recorder.advance(Reply::Failed { code: 5 }), Ok(Some(Request::ReleaseFrame)));
    assert_eq!(recorder.is_running(), true);
    assert_eq!(recorder.advance(Reply::Done), Err(CaptureError::CallbackFailed));
    assert_eq!(recorder.is_running(), false);
    assert_eq!(recorder.request(), None);
    assert_eq!(recorder.on_frame(), Ok(POLL));
}

#[test]
fn failing_handler_wins_over_a_failing_release() {
    let mut recorder = session();
    assert_eq!(recorder.on_frame(), Ok(POLL));
    recorder.advance(Reply::Done).unwrap();
    recorder.advance(surface(4, 3)).unwrap();
    assert_eq!(recorder.advance(Reply::Failed { code: 5 }), Ok(Some(Request::ReleaseFrame)));
    assert_eq!(recorder.advance(Reply::Failed { code: 6 }), Err(CaptureError::CallbackFailed));
    assert_eq!(recorder.request(), None);
}

#[test]
fn failing_release_ends_the_loop() {
    let mut recorder = session();
    assert_eq!(recorder.on_frame(), Ok(POLL));
    recorder.advance(Reply::Done).unwrap();
    recorder.advance(surface(4, 3)).unwrap();
    assert_eq!(recorder.advance(Reply::Done), Ok(Some(Request::ReleaseFrame)));
    assert_eq!(recorder.advance(Reply::Failed { code: 6 }), Err(CaptureError::ReleaseFailed(6)));
    assert_eq!(recorder.is_running(), false);
    assert_eq!(recorder.request(), None);
    assert_eq!(recorder.has_frame(), true);
}

#[test]
fn replies_that_answer_nothing_are_refused() {
    let mut recorder = session();
    assert_eq!(recorder.advance(Reply::Done), Err(CaptureError::UnexpectedReply));
    assert_eq!(recorder.on_frame(), Ok(POLL));
    assert_eq!(recorder.advance(surface(1, 1)), Err(CaptureError::UnexpectedReply));
    assert_eq!(recorder.request(), Some(POLL));
    assert_eq!(recorder.advance(Reply::Done), Ok(Some(Request::DescribeFrame)));
    assert_eq!(recorder.advance(Reply::Done), Err(CaptureError::UnexpectedReply));
    assert_eq!(recorder.request(), Some(Request::DescribeFrame));
    assert_eq!(recorder.has_frame(), false);
    let frame = Frame { width: 1, height: 1 };
    assert_eq!(recorder.advance(surface(1, 1)), Ok(Some(Request::InvokeCallback { frame })));
    assert_eq!(recorder.advance(surface(2, 2)), Err(CaptureError::UnexpectedReply));
    assert_eq!(recorder.request(), Some(Request::InvokeCallback { frame }));
    assert_eq!(recorder.advance(Reply::Done), Ok(Some(Request::ReleaseFrame)));
    assert_eq!(recorder.advance(surface(2, 2)), Err(CaptureError::UnexpectedReply));
    assert_eq!(recorder.advance(Reply::Done), Ok(Some(PAUSE)));
    assert_eq!(recorder.advance(TIMEOUT), Err(CaptureError::UnexpectedReply));
    assert_eq!(recorder.advance(surface(2, 2)), Err(CaptureError::UnexpectedReply));
    assert_eq!(recorder.request(), Some(PAUSE));
    assert_eq!(recorder.is_running(), true);
}

#[test]
fn session_can_be_started_again() {
    let mut recorder = session();
    let mut seen = Vec::new();
    assert_eq!(capture(&mut recorder, &[(1, 2)], |frame| Ok(seen.push(frame))), Ok(()));
    assert_eq!(capture(&mut recorder, &[(3, 4), (5, 6)], |frame| Ok(seen.push(frame))), Ok(()));
    assert_eq!(
        seen,
        vec![
            Frame { width: 1, height: 2 },
            Frame { width: 3, height: 4 },
            Frame { width: 5, height: 6 },
        ]
    );
    assert_eq!(recorder.has_frame(), true);
}

/// What a session shows from outside.
fn look(recorder: &VideoRecorder) -> (bool, bool, Option<Request>) {
    (recorder.is_running(), recorder.has_frame(), recorder.request())
}

/// Walks through every way in which up to `depth` starts, stops and replies
/// can follow one another, and holds each step against what is promised of
/// it. `script` is the way so far; `handed` and `returned` count the frames
/// handed to the handler and the returns of the handler, `stopped` is set
/// while a stop has not been followed by a start, and `after_stop` counts the
/// frames handed over since.
fn explore(script: &mut Vec<u8>, depth: usize, ways: &mut u64) {
    let mut recorder = session();
    let mut handed = 0;
    let mut returned = 0;
    let mut stopped = false;
    let mut after_stop = 0;
    for step in script.iter() {
        let before = look(&recorder);
        match step {
            0 => {
                let started = recorder.on_frame();
                if before.0 || before.2.is_some() {
                    assert_eq!(started, Err(CaptureError::AlreadyRunning));
                    assert_eq!(look(&recorder), before);
                } else {
                    assert_eq!(started, Ok(POLL));
                    assert_eq!(look(&recorder), (true, before.1, Some(POLL)));
                    stopped = false;
                }
            }
            1 => {
                recorder.stop();
                assert_eq!(look(&recorder), (false, before.1, before.2));
                if !stopped {
                    stopped = true;
                    after_stop = 0;
                }
            }
            _ => {
                let reply = match step {
                    2 => Reply::Done,
                    3 => TIMEOUT,
                    _ => surface(16, 9),
                };
                match recorder.advance(reply) {
                    Ok(next) => {
                        assert_eq!(next, recorder.request());
                        assert!(before.2.is_some());
                        if let Some(Request::InvokeCallback { frame }) = before.2 {
                            assert_eq!(frame, Frame { width: 16, height: 9 });
                            assert_eq!(next, Some(Request::ReleaseFrame));
                            returned += 1;
                        }
                        if let Some(Request::InvokeCallback { frame }) = next {
                            assert_eq!(before.2, Some(Request::DescribeFrame));
                            assert_eq!(reply, surface(frame.width, frame.height));
                            handed += 1;
                            after_stop += 1;
                        }
                        if next == Some(POLL) {
                            assert_eq!(before.2, Some(PAUSE));
                            assert!(before.0);
                        }
                        if next.is_none() {
                            assert_eq!(before.2, Some(PAUSE));
                            assert!(!before.0);
                        }
                    }
                    Err(CaptureError::UnexpectedReply) => {
                        assert_eq!(look(&recorder), before);
                    }
                    Err(error) => {
                        assert_eq!(before.2, Some(Request::ReleaseFrame));
                        assert!(matches!(
                            error,
                            CaptureError::CallbackFailed | CaptureError::ReleaseFailed(_)
                        ));
                        assert_eq!(look(&recorder), (false, before.1, None));
                        if !stopped {
                            stopped = true;
                            after_stop = 0;
                        }
                    }
                }
            }
        }
        let now = look(&recorder);
        assert_eq!(now.1, handed > 0);
        assert!(!now.0 || now.2.is_some());
        let with_handler = matches!(now.2, Some(Request::InvokeCallback { .. }));
        assert_eq!(handed, returned + with_handler as u32);
        if stopped {
            assert!(!now.0);
            assert!(after_stop <= 1);
        }
    }
    *ways += 1;
    if script.len() < depth {
        for step in 0..5 {
            script.push(step);
            explore(script, depth, ways);
            script.pop();
        }
    }
}

#[test]
fn every_short_history_keeps_the_promises() {
    let mut ways = 0;
    explore(&mut Vec::new(), 7, &mut ways);
    assert_eq!(ways, 97656);
}
