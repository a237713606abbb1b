use command_bridge::settings::{
    derive_setting_group, parse_setting_data, setting_prefix, variable_lead, Attribute, Field,
    SettingError, SettingType,
};

fn name_value(ident: &str, text: &str) -> Attribute {
    Attribute::NameValue { ident: Some(ident.to_string()), text: Some(text.to_string()) }
}

fn field(name: &str, attrs: Vec<Attribute>) -> Field {
    Field { ident: Some(name.to_string()), attrs }
}

#[test]
fn prefix_is_the_first_prefix_attribute() {
    assert_eq!(setting_prefix(&vec![]), None);
    assert_eq!(setting_prefix(&vec![name_value("setting_prefix", "editor")]), Some("editor".to_string()));
    assert_eq!(
        setting_prefix(&vec![
            Attribute::Other,
            name_value("doc", "text"),
            name_value("setting_prefix", "first"),
            name_value("setting_prefix", "second"),
        ]),
        Some("first".to_string())
    );
}

#[test]
fn prefix_skips_what_is_no_string_or_no_identifier() {
    let no_string = Attribute::NameValue { ident: Some("setting_prefix".to_string()), text: None };
    let no_ident = Attribute::NameValue { ident: None, text: Some("x".to_string()) };
    assert_eq!(setting_prefix(&vec![no_string, no_ident, Attribute::Other]), None);
    let no_string = Attribute::NameValue { ident: Some("setting_prefix".to_string()), text: None };
    assert_eq!(
        setting_prefix(&vec![no_string, name_value("setting_prefix", "later")]),
        Some("later".to_string())
    );
    assert_eq!(setting_prefix(&vec![name_value("setting_prefi", "a"), name_value("opt", "b")]), None);
}

#[test]
fn lead_is_the_prefix_and_an_underscore() {
    assert_eq!(variable_lead(Some("editor".to_string())), "editor_");
    assert_eq!(variable_lead(Some(String::new())), "_");
    assert_eq!(variable_lead(None), "");
}

#[test]
fn field_without_attributes_is_a_variable() {
    let setting = parse_setting_data(&field("refresh_rate", vec![]), "editor_".to_string()).unwrap();
    assert_eq!(setting.setting_type, SettingType::Variable);
    assert_eq!(setting.field_name, "refresh_rate");
    assert_eq!(setting.vim_name, "editor_refresh_rate");
    let setting = parse_setting_data(&field("transparency", vec![]), String::new()).unwrap();
    assert_eq!(setting.vim_name, "transparency");
}

#[test]
fn field_with_opt_is_an_option() {
    let setting =
        parse_setting_data(&field("mouse", vec![name_value("opt", "mousemoveevent")]), "editor_".to_string())
            .unwrap();
    assert_eq!(setting.setting_type, SettingType::Option);
    assert_eq!(setting.field_name, "mouse");
    assert_eq!(setting.vim_name, "mousemoveevent");
}

#[test]
fn field_errors_come_in_order() {
    let two = field("a", vec![name_value("opt", "x"), name_value("opt", "y")]);
    assert_eq!(parse_setting_data(&two, String::new()).unwrap_err(), SettingError::MultipleAttributes);
    let two_unnamed = Field { ident: None, attrs: vec![Attribute::Other, Attribute::Other] };
    assert_eq!(
        parse_setting_data(&two_unnamed, String::new()).unwrap_err(),
        SettingError::MultipleAttributes
    );
    let unnamed = Field { ident: None, attrs: vec![name_value("opt", "x")] };
    assert_eq!(parse_setting_data(&unnamed, String::new()).unwrap_err(), SettingError::UnnamedField);
    let unnamed = Field { ident: None, attrs: vec![] };
    assert_eq!(parse_setting_data(&unnamed, String::new()).unwrap_err(), SettingError::UnnamedField);
    let other = field("a", vec![Attribute::Other]);
    assert_eq!(parse_setting_data(&other, String::new()).unwrap_err(), SettingError::NotNameValue);
    let no_string = field("a", vec![Attribute::NameValue { ident: Some("opt".to_string()), text: None }]);
    assert_eq!(parse_setting_data(&no_string, String::new()).unwrap_err(), SettingError::NotNameValue);
    let wrong = field("a", vec![name_value("name", "x")]);
    assert_eq!(
        parse_setting_data(&wrong, String::new()).unwrap_err(),
        SettingError::UnrecognizedAttribute
    );
    let no_ident = field("a", vec![Attribute::NameValue { ident: None, text: Some("x".to_string()) }]);
    assert_eq!(
        parse_setting_data(&no_ident, String::new()).unwrap_err(),
        SettingError::UnrecognizedAttribute
    );
}

#[test]
fn error_messages() {
    assert_eq!(SettingError::MultipleAttributes.message("p"), "Field has multiple attributes");
    assert_eq!(SettingError::UnnamedField.message("p"), "Expected named struct fields");
    assert_eq!(
        SettingError::NotNameValue.message("p"),
        "Field attributes on SettingGroup must be name values"
    );
    assert_eq!(
        SettingError::UnrecognizedAttribute.message("Some(name)"),
        "Field attribute with path Some(name) not recognized"
    );
}

#[test]
fn group_names_each_field() {
    let attrs = vec![name_value("setting_prefix", "cursor")];
    let fields = vec![
        field("animation_length", vec![]),
        field("title", vec![name_value("opt", "titlestring")]),
        field("broken", vec![Attribute::Other]),
    ];
    let settings = derive_setting_group(true, &attrs, &fields).unwrap();
    assert_eq!(settings.len(), 3);
    let first = settings[0].as_ref().unwrap();
    assert_eq!(first.setting_type, SettingType::Variable);
    assert_eq!(first.vim_name, "cursor_animation_length");
    let second = settings[1].as_ref().unwrap();
    assert_eq!(second.setting_type, SettingType::Option);
    assert_eq!(second.field_name, "title");
    assert_eq!(second.vim_name, "titlestring");
    assert_eq!(*settings[2].as_ref().unwrap_err(), SettingError::NotNameValue);
}

#[test]
fn group_without_prefix_and_group_that_is_no_struct() {
    let fields = vec![field("fullscreen", vec![])];
    let settings = derive_setting_group(true, &vec![], &fields).unwrap();
    assert_eq!(settings[0].as_ref().unwrap().vim_name, "fullscreen");
    assert!(derive_setting_group(true, &vec![], &vec![]).unwrap().is_empty());
    assert!(derive_setting_group(false, &vec![], &fields).is_none());
}
