use dioxus_virtual_scroll::target::ScrollTarget;

#[test]
fn default_target_is_container() {
    assert_eq!(ScrollTarget::default(), ScrollTarget::Container);
}

#[test]
fn container_class_appends_caller_classes() {
    assert_eq!(
        ScrollTarget::Container.container_class("h-[500px]"),
        "virtual-grid-container w-full overflow-y-auto h-[500px]"
    );
}

#[test]
fn window_class_ignores_caller_classes() {
    assert_eq!(
        ScrollTarget::Window.container_class("h-[500px]"),
        "virtual-grid-container w-full"
    );
}
