use sigil::frame::{FrameEvent, FrameLoop};
use sigil::input::{Input, InputEvent, KEY_ESCAPE};

#[test]
fn redraw_renders_and_runs_script() {
    let mut lp = FrameLoop::new();
    let mut input = Input::new();
    let acts = lp.frame_step(&mut input, &FrameEvent::RedrawRequested);
    assert!(acts.render);
    assert!(acts.run_script);
    assert!(!acts.exit);
}

#[test]
fn other_events_still_drive_one_script_call() {
    let mut lp = FrameLoop::new();
    let mut input = Input::new();
    let acts = lp.frame_step(&mut input, &FrameEvent::Other);
    assert!(!acts.render);
    assert!(acts.run_script);
    assert!(!acts.exit);
}

#[test]
fn close_terminates_without_a_script_call() {
    let mut lp = FrameLoop::new();
    let mut input = Input::new();
    let mut script_calls = 0;
    let trace = vec![
        FrameEvent::RedrawRequested,
        FrameEvent::Key(InputEvent::Press(9)),
        FrameEvent::CloseRequested,
        FrameEvent::RedrawRequested,
        FrameEvent::Key(InputEvent::Press(9)),
    ];
    let mut exits = 0;
    for ev in trace.iter() {
        let acts = lp.frame_step(&mut input, ev);
        if acts.run_script {
            script_calls += 1;
        }
        if acts.exit {
            exits += 1;
        }
    }
    // The two iterations before the close request each ran the script;
    // the close iteration and everything after it ran nothing.
    assert_eq!(script_calls, 2);
    assert_eq!(exits, 1);
}

#[test]
fn escape_press_terminates_on_the_same_iteration() {
    let mut lp = FrameLoop::new();
    let mut input = Input::new();
    let acts = lp.frame_step(&mut input, &FrameEvent::Key(InputEvent::Press(KEY_ESCAPE)));
    assert!(acts.exit);
    assert!(acts.run_script);
    assert!(input.is_key_just_pressed(KEY_ESCAPE));
}

#[test]
fn escape_is_just_pressed_for_exactly_one_iteration() {
    let mut input = Input::new();
    input.update(&vec![InputEvent::Press(KEY_ESCAPE)]);
    assert!(input.is_key_just_pressed(KEY_ESCAPE));
    input.update(&vec![]);
    assert!(!input.is_key_just_pressed(KEY_ESCAPE));
    assert!(input.is_key_pressed(KEY_ESCAPE));
}

#[test]
fn nothing_happens_after_exit() {
    let mut lp = FrameLoop::new();
    let mut input = Input::new();
    let acts = lp.frame_step(&mut input, &FrameEvent::CloseRequested);
    assert!(acts.exit);
    let acts = lp.frame_step(&mut input, &FrameEvent::RedrawRequested);
    assert!(!acts.render);
    assert!(!acts.run_script);
    assert!(!acts.exit);
}
