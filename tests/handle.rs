use imgui_baseview::handle::{close_channel, frame_action, FrameAction, HandleMessage, QueueFull, QUEUE_SIZE};

#[test]
fn close_queue_fills_after_ten_requests() {
    let (mut handle, _receiver) = close_channel();
    assert_eq!(QUEUE_SIZE, 10);
    for _ in 0..10 {
        assert_eq!(handle.request_window_close(), Ok(()));
    }
    assert_eq!(handle.request_window_close(), Err(QueueFull));
}

#[test]
fn draining_makes_room_again() {
    let (mut handle, mut receiver) = close_channel();
    for _ in 0..10 {
        assert_eq!(handle.request_window_close(), Ok(()));
    }
    assert_eq!(receiver.poll(), FrameAction::Close);
    assert_eq!(handle.request_window_close(), Ok(()));
    assert_eq!(handle.request_window_close(), Err(QueueFull));
}

#[test]
fn frame_runs_without_requests() {
    let (mut handle, mut receiver) = close_channel();
    assert_eq!(receiver.poll(), FrameAction::Run);
    handle.request_window_close().unwrap();
    assert_eq!(receiver.poll(), FrameAction::Close);
    assert_eq!(receiver.poll(), FrameAction::Run);
}

#[test]
fn frame_action_of_messages() {
    assert_eq!(frame_action(None), FrameAction::Run);
    assert_eq!(frame_action(Some(HandleMessage::CloseRequested)), FrameAction::Close);
}
