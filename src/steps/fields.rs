//! The fields of a password record and how a record is shown.
use vstd::prelude::*;
use vstd::string::StringExecFns;

use crate::dialogues::{MessageFormat, OutgoingMessage};
use crate::record::{field_value, Record};

verus! {

pub const RECORD_NAME_FIELD: &'static str = "RECORD_NAME";

pub const RECORD_PASSWD_FIELD: &'static str = "RECORD_PASSWD";

pub const RECORD_DESCR_FIELD: &'static str = "RECORD_DESCR";

pub const RECORD_LOGIN_FIELD: &'static str = "RECORD_LOGIN";

/// `label` and `value` as one line, the value set as code.
pub open spec fn labelled(label: Seq<char>, value: Seq<char>) -> Seq<char> {
    label + "<code>"@ + value + "</code>"@
}

/// The line of `label` with the value of the field `name`, after a line
/// break unless `first`; nothing when the record has no such field.
pub open spec fn field_line(fields: Seq<(Seq<char>, Seq<char>)>, name: Seq<char>, label: Seq<char>, first: bool) -> Seq<char> {
    match field_value(fields, name) {
        Some(v) => if first { labelled(label, v) } else { "\n"@ + labelled(label, v) },
        None => seq![],
    }
}

/// The text that shows a record with `fields`.
pub open spec fn record_text(fields: Seq<(Seq<char>, Seq<char>)>) -> Seq<char> {
    field_line(fields, RECORD_NAME_FIELD@, "Название: "@, true)
        + field_line(fields, RECORD_LOGIN_FIELD@, "Логин: "@, false)
        + field_line(fields, RECORD_DESCR_FIELD@, "Описание: "@, false)
        + field_line(fields, RECORD_PASSWD_FIELD@, "Пароль: "@, false)
}

fn labelled_line(text: &mut String, label: &str, value: &str)
    ensures
        final(text)@ == old(text)@ + labelled(label@, value@),
{
    text.append(label);
    text.append("<code>");
    text.append(value);
    text.append("</code>");
}

/// The record as an HTML message: its name, its login and description when
/// it has them, and its password, one per line.
pub fn record_as_message(record: &Record) -> (r: OutgoingMessage)
    ensures
        r@ == (record_text(record@), MessageFormat::Html),
{
    let mut text = String::new();
    match record.get_field_value(RECORD_NAME_FIELD) {
        Some(name) => labelled_line(&mut text, "Название: ", name.as_str()),
        None => {},
    }
    match record.get_field_value(RECORD_LOGIN_FIELD) {
        Some(login) => {
            text.append("\n");
            labelled_line(&mut text, "Логин: ", login.as_str());
        },
        None => {},
    }
    match record.get_field_value(RECORD_DESCR_FIELD) {
        Some(descr) => {
            text.append("\n");
            labelled_line(&mut text, "Описание: ", descr.as_str());
        },
        None => {},
    }
    match record.get_field_value(RECORD_PASSWD_FIELD) {
        Some(passwd) => {
            text.append("\n");
            labelled_line(&mut text, "Пароль: ", passwd.as_str());
        },
        None => {},
    }
    OutgoingMessage::new(text, MessageFormat::Html)
}

} // verus!
