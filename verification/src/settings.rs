//! How the fields of a settings group are named in the editor: a field is a
//! global variable, named by the group's prefix and the field's name, unless
//! an attribute makes it an editor option with a name of its own.

use vstd::prelude::*;
use vstd::string::*;

verus! {

/// Where the editor keeps a setting.
#[derive(Clone, Copy, Debug, PartialEq, Eq, Structural)]
pub enum SettingType {
    Variable,
    Option,
}

/// An attribute as far as the naming reads it.
#[derive(Debug)]
pub enum Attribute {
    /// `path = literal`. `ident` is the path where it is one identifier;
    /// `text` is the literal where it is a string.
    NameValue { ident: Option<String>, text: Option<String> },
    /// Any other attribute.
    Other,
}

/// A field of a settings group: its name, if it has one, and its attributes.
#[derive(Debug)]
pub struct Field {
    pub ident: Option<String>,
    pub attrs: Vec<Attribute>,
}

/// The setting that a field stands for.
#[derive(Debug)]
pub struct SettingData {
    pub setting_type: SettingType,
    pub field_name: String,
    pub vim_name: String,
}

/// A setting as a mathematical value.
pub ghost struct SettingView {
    pub setting_type: SettingType,
    pub field_name: Seq<char>,
    pub vim_name: Seq<char>,
}

impl View for SettingData {
    type V = SettingView;

    open spec fn view(&self) -> SettingView {
        SettingView {
            setting_type: self.setting_type,
            field_name: self.field_name@,
            vim_name: self.vim_name@,
        }
    }
}

/// Why a field stands for no setting.
#[derive(Clone, Copy, Debug, PartialEq, Eq, Structural)]
pub enum SettingError {
    MultipleAttributes,
    UnnamedField,
    NotNameValue,
    UnrecognizedAttribute,
}

impl Attribute {
    /// Whether this is `name = "text"` for the given name and some text.
    pub open spec fn names(self, name: Seq<char>) -> bool {
        match self {
            Attribute::NameValue { ident: Some(ident), text: Some(_) } => ident@ == name,
            _ => false,
        }
    }

    /// The string literal of a name-value attribute.
    pub open spec fn text(self) -> Seq<char>
        recommends
            self is NameValue,
            self->text is Some,
    {
        self->text->0@
    }

    fn is_named(&self, name: &str) -> (named: bool)
        ensures
            named == self.names(name@),
    {
        match self {
            Attribute::NameValue { ident: Some(ident), text: Some(_) } => {
                let wanted = String::from_str(name);
                *ident == wanted
            },
            _ => false,
        }
    }
}

/// The text of the first attribute from position `from` on that reads
/// `setting_prefix = "text"`.
pub open spec fn prefix_from(attrs: Seq<Attribute>, from: int) -> Option<Seq<char>>
    decreases attrs.len() - from,
{
    if from < 0 || from >= attrs.len() {
        None
    } else if attrs[from].names("setting_prefix"@) {
        Some(attrs[from].text())
    } else {
        prefix_from(attrs, from + 1)
    }
}

/// What comes before a field's name in the name of its variable.
pub open spec fn lead_of(prefix: Option<Seq<char>>) -> Seq<char> {
    match prefix {
        Some(text) => text + "_"@,
        None => Seq::empty(),
    }
}

/// The setting that a field stands for, or why it stands for none.
pub open spec fn setting_of(field: Field, lead: Seq<char>) -> Result<SettingView, SettingError> {
    if field.attrs@.len() > 1 {
        Err(SettingError::MultipleAttributes)
    } else {
        match field.ident {
            None => Err(SettingError::UnnamedField),
            Some(name) => if field.attrs@.len() == 0 {
                Ok(
                    SettingView {
                        setting_type: SettingType::Variable,
                        field_name: name@,
                        vim_name: lead + name@,
                    },
                )
            } else {
                match field.attrs@[0] {
                    Attribute::NameValue { ident, text: Some(text) } => if field.attrs@[0].names(
                        "opt"@,
                    ) {
                        Ok(
                            SettingView {
                                setting_type: SettingType::Option,
                                field_name: name@,
                                vim_name: text@,
                            },
                        )
                    } else {
                        Err(SettingError::UnrecognizedAttribute)
                    },
                    _ => Err(SettingError::NotNameValue),
                }
            },
        }
    }
}

/// Whether the outcome of reading a field is the expected one.
pub open spec fn reads_as(
    setting: Result<SettingData, SettingError>,
    expected: Result<SettingView, SettingError>,
) -> bool {
    match expected {
        Ok(view) => setting is Ok && setting->Ok_0@ == view,
        Err(error) => setting == Err::<SettingData, SettingError>(error),
    }
}

/// The text that reports an error. `path` is how the path of the attribute
/// prints; only `UnrecognizedAttribute` shows it.
pub open spec fn message_of(error: SettingError, path: Seq<char>) -> Seq<char> {
    match error {
        SettingError::MultipleAttributes => "Field has multiple attributes"@,
        SettingError::UnnamedField => "Expected named struct fields"@,
        SettingError::NotNameValue => "Field attributes on SettingGroup must be name values"@,
        SettingError::UnrecognizedAttribute => "Field attribute with path "@ + path
            + " not recognized"@,
    }
}

impl SettingError {
    /// The text that reports this error.
    pub fn message(&self, path: &str) -> (text: String)
        ensures
            text@ == message_of(*self, path@),
    {
        match self {
            SettingError::MultipleAttributes => String::from_str("Field has multiple attributes"),
            SettingError::UnnamedField => String::from_str("Expected named struct fields"),
            SettingError::NotNameValue => String::from_str(
                "Field attributes on SettingGroup must be name values",
            ),
            SettingError::UnrecognizedAttribute => {
                let mut text = String::from_str("Field attribute with path ");
                text.append(path);
                text.append(" not recognized");
                text
            },
        }
    }
}

/// The prefix that a group's attributes give to the names of its variables:
/// the text of the first `setting_prefix = "text"` among them.
pub fn setting_prefix(attrs: &Vec<Attribute>) -> (prefix: Option<String>)
    ensures
        match prefix_from(attrs@, 0) {
            Some(text) => prefix is Some && prefix->0@ == text,
            None => prefix is None,
        },
{
    let mut at: usize = 0;
    while at < attrs.len()
        invariant
            at <= attrs.len(),
            prefix_from(attrs@, 0) == prefix_from(attrs@, at as int),
        decreases attrs.len() - at,
    {
        if attrs[at].is_named("setting_prefix") {
            match &attrs[at] {
                Attribute::NameValue { ident: _, text: Some(text) } => {
                    return Some(text.clone());
                },
                _ => {},
            }
        }
        at = at + 1;
    }
    None
}

/// What comes before a field's name in the name of its variable: the prefix
/// and an underscore, or nothing for a group without a prefix.
pub fn variable_lead(prefix: Option<String>) -> (lead: String)
    ensures
        lead@ == lead_of(
            match prefix {
                Some(text) => Some(text@),
                None => None,
            },
        ),
{
    match prefix {
        Some(text) => text.concat("_"),
        None => String::new(),
    }
}

/// Reads a field as a setting. A field without attributes is a variable named
/// `lead` and the field's name; a field with `opt = "name"` is the option of
/// that name. More than one attribute, a field without a name, an attribute
/// that is no `path = "text"`, and a path other than `opt` are errors, tested
/// in this order.
pub fn parse_setting_data(field: &Field, lead: String) -> (setting: Result<
    SettingData,
    SettingError,
>)
    ensures
        reads_as(setting, setting_of(*field, lead@)),
{
    if field.attrs.len() > 1 {
        return Err(SettingError::MultipleAttributes);
    }
    match &field.ident {
        None => Err(SettingError::UnnamedField),
        Some(name) => {
            if field.attrs.len() == 0 {
                return Ok(
                    SettingData {
                        setting_type: SettingType::Variable,
                        field_name: name.clone(),
                        vim_name: lead.concat(name.as_str()),
                    },
                );
            }
            match &field.attrs[0] {
                Attribute::NameValue { ident: _, text: Some(text) } => {
                    if field.attrs[0].is_named("opt") {
                        Ok(
                            SettingData {
                                setting_type: SettingType::Option,
                                field_name: name.clone(),
                                vim_name: text.clone(),
                            },
                        )
                    } else {
                        Err(SettingError::UnrecognizedAttribute)
                    }
                },
                _ => Err(SettingError::NotNameValue),
            }
        },
    }
}

/// Reads a settings group: each of its fields as a setting, in the order of
/// the fields, with the lead that the group's attributes give. A group that
/// is no struct has no settings.
pub fn derive_setting_group(is_struct: bool, attrs: &Vec<Attribute>, fields: &Vec<Field>) -> (settings:
    Option<Vec<Result<SettingData, SettingError>>>)
    ensures
        settings is Some <==> is_struct,
        is_struct ==> settings->0@.len() == fields@.len(),
        is_struct ==> forall|i: int|
            0 <= i < fields@.len() ==> reads_as(
                #[trigger] settings->0@[i],
                setting_of(fields@[i], lead_of(prefix_from(attrs@, 0))),
            ),
{
    if !is_struct {
        return None;
    }
    let lead = variable_lead(setting_prefix(attrs));
    let mut settings: Vec<Result<SettingData, SettingError>> = Vec::new();
    let mut at: usize = 0;
    while at < fields.len()
        invariant
            at <= fields.len(),
            settings@.len() == at,
            lead@ == lead_of(prefix_from(attrs@, 0)),
            forall|i: int|
                0 <= i < at ==> reads_as(
                    #[trigger] settings@[i],
                    setting_of(fields@[i], lead_of(prefix_from(attrs@, 0))),
                ),
        decreases fields.len() - at,
    {
        settings.push(parse_setting_data(&fields[at], lead.clone()));
        at = at + 1;
    }
    Some(settings)
}

} // verus!
