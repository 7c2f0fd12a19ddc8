use video_shell::playback::{PlaybackKind, PlaybackWorker};
use video_shell::shell::{
    bind_failure_message, button_caption, listen_address, Button, Shell, UiAction,
};

#[test]
fn greeting_shows_at_startup() {
    let shell = Shell::new();
    assert_eq!(shell.label, "Hello, Egui!");
    assert!(!shell.listener_started);
}

#[test]
fn play_buttons_spawn_one_worker_each() {
    let mut shell = Shell::new();
    let action = shell.handle_click(Button::PlayVideo);
    assert_eq!(action, UiAction::SpawnWorker { kind: PlaybackKind::Camera });
    let action = shell.handle_click(Button::PlayVideoStream);
    assert_eq!(action, UiAction::SpawnWorker { kind: PlaybackKind::RtpStream });
    assert_eq!(shell.label, "Hello, Egui!");
    assert!(!shell.listener_started);
}

#[test]
fn listener_button_spawns_one_listener_per_click() {
    let mut shell = Shell::new();
    let first = shell.handle_click(Button::StartNotifications);
    assert_eq!(first, UiAction::SpawnListener);
    assert!(shell.listener_started);
    // A second click spawns one more listener, with no coordination against
    // the first; its bind failure stays on its own thread.
    let second = shell.handle_click(Button::StartNotifications);
    assert_eq!(second, UiAction::SpawnListener);
    assert!(shell.listener_started);
    assert_eq!(shell.label, "Hello, Egui!");
}

#[test]
fn worker_reports_land_in_the_label() {
    let mut shell = Shell::new();
    shell.apply_worker_result(Ok(String::from("Playing video from camera...")));
    assert_eq!(shell.label, "Playing video from camera...");
    shell.apply_worker_result(Err(String::from("Failed to set pipeline state to playing")));
    assert_eq!(shell.label, "Failed to set pipeline state to playing");
}

#[test]
fn racing_writes_leave_one_whole_message() {
    let attempts = [
        String::from("Playing video from camera..."),
        String::from("Playing video stream..."),
    ];
    // Whichever order the lock grants, the label ends as one attempted
    // message, never a mixture.
    for (a, b) in [(0, 1), (1, 0)] {
        let mut shell = Shell::new();
        shell.apply_worker_result(Ok(attempts[a].clone()));
        shell.apply_worker_result(Ok(attempts[b].clone()));
        assert!(attempts.contains(&shell.label));
        assert_eq!(shell.label, attempts[b]);
    }
}

#[test]
fn playback_failure_is_label_text_not_silence() {
    // A host without the camera-capture element: the worker's report reaches
    // the label as a failure string.
    let mut worker = PlaybackWorker::new(PlaybackKind::Camera);
    worker.apply_step_result(true, "");
    worker.apply_step_result(false, "no such element");
    let mut shell = Shell::new();
    shell.apply_worker_result(worker.into_result());
    assert!(shell.label.starts_with("Failed"));
    assert!(shell.label.contains("Failed to create"));
    assert!(shell.label.contains("avfvideosrc"));
}

#[test]
fn captions_match_the_window() {
    assert_eq!(button_caption(Button::PlayVideo), "Play Video");
    assert_eq!(button_caption(Button::PlayVideoStream), "Play Video Stream");
    assert_eq!(button_caption(Button::StartNotifications), "Start UDP Stream Notifications");
}

#[test]
fn listener_endpoint_and_bind_failure_text() {
    assert_eq!(listen_address(), "0.0.0.0:34254");
    assert_eq!(
        bind_failure_message("address in use"),
        "Failed to bind UDP socket: address in use",
    );
}
