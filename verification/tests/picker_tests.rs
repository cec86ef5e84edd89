use ali_bastion::config::HostConfig;
use ali_bastion::interactive::KeyInput;
use ali_bastion::interactive::StepResult;
use ali_bastion::interactive::render_lines;
use ali_bastion::interactive::select_host_interactively;
use ali_bastion::interactive::step;

fn host(name: &str, hostname: &str, port: u16, username: &str) -> HostConfig {
    HostConfig {
        name: name.to_string(),
        hostname: hostname.to_string(),
        port,
        username: username.to_string(),
        password: None,
    }
}

#[test]
fn test_down_enter_selects_second() {
    let alpha = host("alpha", "10.0.0.1", 22, "root");
    let beta = host("beta", "10.0.0.2", 22, "root");
    let hosts = vec![&alpha, &beta];
    let events = vec![KeyInput::Down, KeyInput::Enter];
    let r = select_host_interactively(&hosts, &events);
    assert_eq!(r.choice.as_deref(), Some("beta"));
    assert_eq!(r.consumed, 2);
}

#[test]
fn test_single_host_selected_without_input() {
    let alpha = host("alpha", "10.0.0.1", 22, "root");
    let hosts = vec![&alpha];
    // Even with inputs queued, none may be consumed.
    let events = vec![KeyInput::Down, KeyInput::Esc];
    let r = select_host_interactively(&hosts, &events);
    assert_eq!(r.choice.as_deref(), Some("alpha"));
    assert_eq!(r.consumed, 0);
}

#[test]
fn test_empty_list_returns_none_immediately() {
    let hosts: Vec<&HostConfig> = vec![];
    let events = vec![KeyInput::Enter];
    let r = select_host_interactively(&hosts, &events);
    assert_eq!(r.choice, None);
    assert_eq!(r.consumed, 0);
}

#[test]
fn test_esc_returns_no_selection_at_any_cursor() {
    let alpha = host("alpha", "10.0.0.1", 22, "root");
    let beta = host("beta", "10.0.0.2", 22, "root");
    let gamma = host("gamma", "10.0.0.3", 22, "root");
    let hosts = vec![&alpha, &beta, &gamma];
    // Esc right away, after one move, and after two moves.
    for prefix in 0..3usize {
        let mut events = vec![KeyInput::Down; prefix];
        events.push(KeyInput::Esc);
        let r = select_host_interactively(&hosts, &events);
        assert_eq!(r.choice, None);
        assert_eq!(r.consumed, prefix + 1);
    }
}

#[test]
fn test_ctrl_c_cancels() {
    let alpha = host("alpha", "10.0.0.1", 22, "root");
    let beta = host("beta", "10.0.0.2", 22, "root");
    let hosts = vec![&alpha, &beta];
    let events = vec![KeyInput::CtrlC];
    let r = select_host_interactively(&hosts, &events);
    assert_eq!(r.choice, None);
    assert_eq!(r.consumed, 1);
}

#[test]
fn test_read_error_degrades_to_no_selection() {
    let alpha = host("alpha", "10.0.0.1", 22, "root");
    let beta = host("beta", "10.0.0.2", 22, "root");
    let hosts = vec![&alpha, &beta];
    let events = vec![KeyInput::Down, KeyInput::ReadError];
    let r = select_host_interactively(&hosts, &events);
    assert_eq!(r.choice, None);
    assert_eq!(r.consumed, 2);
}

#[test]
fn test_up_clamps_at_top() {
    let alpha = host("alpha", "10.0.0.1", 22, "root");
    let beta = host("beta", "10.0.0.2", 22, "root");
    let hosts = vec![&alpha, &beta];
    let events = vec![KeyInput::Up, KeyInput::Up, KeyInput::Up, KeyInput::Enter];
    let r = select_host_interactively(&hosts, &events);
    assert_eq!(r.choice.as_deref(), Some("alpha"));
}

#[test]
fn test_down_clamps_at_bottom() {
    let alpha = host("alpha", "10.0.0.1", 22, "root");
    let beta = host("beta", "10.0.0.2", 22, "root");
    let hosts = vec![&alpha, &beta];
    let events = vec![
        KeyInput::Down,
        KeyInput::Down,
        KeyInput::Down,
        KeyInput::Down,
        KeyInput::Enter,
    ];
    let r = select_host_interactively(&hosts, &events);
    assert_eq!(r.choice.as_deref(), Some("beta"));
}

#[test]
fn test_other_keys_are_ignored() {
    let alpha = host("alpha", "10.0.0.1", 22, "root");
    let beta = host("beta", "10.0.0.2", 22, "root");
    let hosts = vec![&alpha, &beta];
    let events = vec![KeyInput::Other, KeyInput::Other, KeyInput::Enter];
    let r = select_host_interactively(&hosts, &events);
    assert_eq!(r.choice.as_deref(), Some("alpha"));
    assert_eq!(r.consumed, 3);
}

#[test]
fn test_exhausted_input_returns_none() {
    let alpha = host("alpha", "10.0.0.1", 22, "root");
    let beta = host("beta", "10.0.0.2", 22, "root");
    let hosts = vec![&alpha, &beta];
    let events = vec![KeyInput::Down, KeyInput::Up];
    let r = select_host_interactively(&hosts, &events);
    assert_eq!(r.choice, None);
    assert_eq!(r.consumed, 2);
}

#[test]
fn test_step_transitions() {
    assert_eq!(step(3, 0, KeyInput::Up), StepResult::Continue(0));
    assert_eq!(step(3, 2, KeyInput::Up), StepResult::Continue(1));
    assert_eq!(step(3, 2, KeyInput::Down), StepResult::Continue(2));
    assert_eq!(step(3, 1, KeyInput::Down), StepResult::Continue(2));
    assert_eq!(step(3, 1, KeyInput::Other), StepResult::Continue(1));
    assert_eq!(step(3, 1, KeyInput::Enter), StepResult::Select(1));
    assert_eq!(step(3, 1, KeyInput::Esc), StepResult::Cancel);
    assert_eq!(step(3, 1, KeyInput::CtrlC), StepResult::Cancel);
    assert_eq!(step(3, 1, KeyInput::ReadError), StepResult::Cancel);
}

#[test]
fn test_render_layout_and_highlight() {
    let alpha = host("alpha", "10.0.0.1", 22, "alice");
    let beta = host("beta", "10.0.0.2", 2222, "bob");
    let hosts = vec![&alpha, &beta];
    let lines = render_lines(&hosts, 1);

    assert_eq!(lines.len(), 5);
    assert_eq!(lines[0].text, "Select a host to connect to:");
    assert!(!lines[0].highlighted);
    assert_eq!(
        lines[1].text,
        "(Use \u{2191}/\u{2193} arrows to navigate, Enter to select, Esc/Ctrl+C to cancel)"
    );
    assert_eq!(lines[2].text, "");
    assert_eq!(lines[3].text, "  alpha                alice@10.0.0.1:22");
    assert!(!lines[3].highlighted);
    assert_eq!(lines[4].text, "\u{25b6} beta                 bob@10.0.0.2:2222");
    assert!(lines[4].highlighted);
}

#[test]
fn test_render_does_not_truncate_long_names() {
    let long = host("a_name_longer_than_twenty_chars", "h", 1, "u");
    let hosts = vec![&long];
    let lines = render_lines(&hosts, 0);
    assert_eq!(
        lines[3].text,
        "\u{25b6} a_name_longer_than_twenty_chars u@h:1"
    );
}
