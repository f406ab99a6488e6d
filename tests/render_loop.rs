use todoodler::state::{App, Flow, Input, POPUP_KEY, QUIT_KEY};

fn feed(app: App, inputs: &[Input]) -> Flow {
    let mut app = app;
    for input in inputs {
        match app.handle_input(*input) {
            Flow::Continue(next) => app = next,
            Flow::Quit => return Flow::Quit,
        }
    }
    Flow::Continue(app)
}

#[test]
fn starts_with_popup_hidden() {
    assert!(!App::new().show_popup);
}

#[test]
fn popup_toggle_scenario() {
    let app = App::new();
    let shown = match app.handle_input(Input::Char('p')) {
        Flow::Continue(a) => a,
        Flow::Quit => panic!("quit on p"),
    };
    assert!(shown.show_popup);
    let hidden = match shown.handle_input(Input::Char('p')) {
        Flow::Continue(a) => a,
        Flow::Quit => panic!("quit on p"),
    };
    assert!(!hidden.show_popup);
    assert_eq!(hidden.handle_input(Input::Char('q')), Flow::Quit);
}

#[test]
fn even_presses_restore_the_flag() {
    let presses = vec![Input::Char(POPUP_KEY); 6];
    assert_eq!(feed(App::new(), &presses), Flow::Continue(App { show_popup: false }));
}

#[test]
fn odd_presses_show_the_popup() {
    let presses = vec![Input::Char(POPUP_KEY); 7];
    assert_eq!(feed(App::new(), &presses), Flow::Continue(App { show_popup: true }));
}

#[test]
fn other_events_change_nothing() {
    let inputs = vec![
        Input::Char('x'),
        Input::Other,
        Input::Char('P'),
        Input::Char('Q'),
        Input::Char(' '),
    ];
    assert_eq!(feed(App::new(), &inputs), Flow::Continue(App { show_popup: false }));
    let shown = App { show_popup: true };
    assert_eq!(feed(shown, &inputs), Flow::Continue(shown));
}

#[test]
fn no_quit_key_keeps_running() {
    let inputs = vec![
        Input::Char('p'),
        Input::Other,
        Input::Char('a'),
        Input::Char('p'),
        Input::Char('p'),
    ];
    assert_eq!(feed(App::new(), &inputs), Flow::Continue(App { show_popup: true }));
}

#[test]
fn quit_key_stops_after_any_toggles() {
    for n in 0..5usize {
        let mut inputs = vec![Input::Char(POPUP_KEY); n];
        inputs.push(Input::Char(QUIT_KEY));
        inputs.push(Input::Char(POPUP_KEY));
        assert_eq!(feed(App::new(), &inputs), Flow::Quit);
    }
    assert_eq!(App { show_popup: true }.handle_input(Input::Char('q')), Flow::Quit);
}
