use sidebar_plugin::sidebar::{
    my_sidebar_arguments, my_sidebar_type_arguments, MySidebarRust, MySidebarTypeRust, PluginModel,
};

#[test]
fn init_registers_exactly_one_type_and_succeeds() {
    let mut m = PluginModel::new();
    assert_eq!(m.registered_types, 0);
    let ok = m.initialize_plugin(true);
    assert!(ok);
    assert_eq!(m.registered_types, 1);
    assert!(m.live_widgets.is_empty());
}

#[test]
fn created_widgets_are_nonnull_and_distinct() {
    let mut m = PluginModel::new();
    m.initialize_plugin(true);
    let w1 = m.create_widget(7, 9);
    let w2 = m.create_widget(7, 9);
    let w3 = m.create_widget(0, 0);
    assert_ne!(w1, 0);
    assert_ne!(w2, 0);
    assert_ne!(w3, 0);
    assert_ne!(w1, w2);
    assert_ne!(w1, w3);
    assert_ne!(w2, w3);
    assert_eq!(m.live_widgets, vec![w1, w2, w3]);
    assert_eq!(m.registered_types, 1);
}

#[test]
fn closing_forgets_the_widget() {
    let mut m = PluginModel::new();
    m.initialize_plugin(true);
    let w1 = m.create_widget(1, 2);
    let w2 = m.create_widget(3, 4);
    m.widget_closing(w1);
    assert_eq!(m.live_widgets, vec![w2]);
    m.widget_closing(w2);
    assert!(m.live_widgets.is_empty());
}

#[test]
fn closing_an_unknown_handle_changes_nothing() {
    let mut m = PluginModel::new();
    m.initialize_plugin(true);
    let w1 = m.create_widget(1, 2);
    m.widget_closing(w1 + 1000);
    assert_eq!(m.live_widgets, vec![w1]);
    assert_eq!(m.registered_types, 1);
}

#[test]
fn widget_constructor_arguments_are_fixed() {
    let args = my_sidebar_arguments();
    assert_eq!(args.title, "test");
}

#[test]
fn type_constructor_arguments_keep_the_icon() {
    let args = my_sidebar_type_arguments(vec![0x89, 0x50, 0x4E, 0x47]);
    assert_eq!(args.icon_data, vec![0x89, 0x50, 0x4E, 0x47]);
    assert_eq!(args.name, "test_str");

    let empty = my_sidebar_type_arguments(Vec::new());
    assert!(empty.icon_data.is_empty());
    assert_eq!(empty.name, "test_str");
}

#[test]
fn marker_state_constructors_exist() {
    let _widget_side: MySidebarRust = MySidebarRust::new();
    let _type_side: MySidebarTypeRust = MySidebarTypeRust::new();
}
