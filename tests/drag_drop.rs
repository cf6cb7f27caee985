use desk_bridge::drag_drop::{translate, EventName, NativeWindowEvent};

fn paths(items: &[&str]) -> Vec<String> {
    items.iter().map(|p| p.to_string()).collect()
}

#[test]
fn enter_gives_hover_with_paths() {
    let event = translate(NativeWindowEvent::DragEnter { paths: paths(&["a.txt", "b.txt"]) })
        .expect("an event");
    assert_eq!(event.name, EventName::FileDropHover);
    assert_eq!(event.name.as_str(), "file-drop-hover");
    assert_eq!(event.payload, Some(paths(&["a.txt", "b.txt"])));
}

#[test]
fn enter_without_paths_gives_empty_hover() {
    let event = translate(NativeWindowEvent::DragEnter { paths: Vec::new() }).expect("an event");
    assert_eq!(event.name, EventName::FileDropHover);
    assert_eq!(event.payload, Some(Vec::new()));
}

#[test]
fn over_gives_hover_without_paths() {
    let event = translate(NativeWindowEvent::DragOver { paths: Vec::new() }).expect("an event");
    assert_eq!(event.name, EventName::FileDropHover);
    assert_eq!(event.payload, Some(Vec::<String>::new()));
}

#[test]
fn over_ignores_attached_paths() {
    let event = translate(NativeWindowEvent::DragOver { paths: paths(&["big.iso", "other.bin"]) })
        .expect("an event");
    assert_eq!(event.name.as_str(), "file-drop-hover");
    assert_eq!(event.payload, Some(Vec::<String>::new()));
}

#[test]
fn drop_gives_drop_with_paths() {
    let event = translate(NativeWindowEvent::Drop { paths: paths(&["x.png"]) }).expect("an event");
    assert_eq!(event.name, EventName::FileDrop);
    assert_eq!(event.name.as_str(), "file-drop");
    assert_eq!(event.payload, Some(paths(&["x.png"])));
}

#[test]
fn drop_keeps_path_order() {
    let dropped = paths(&["z/3.txt", "a/1.txt", "m/2.txt"]);
    let event = translate(NativeWindowEvent::Drop { paths: dropped.clone() }).expect("an event");
    assert_eq!(event.payload, Some(dropped));
}

#[test]
fn leave_gives_cancel_without_payload() {
    let event = translate(NativeWindowEvent::DragLeave).expect("an event");
    assert_eq!(event.name, EventName::FileDropCancelled);
    assert_eq!(event.name.as_str(), "file-drop-cancelled");
    assert_eq!(event.payload, None);
}

#[test]
fn other_events_are_ignored() {
    assert!(translate(NativeWindowEvent::Other).is_none());
}
