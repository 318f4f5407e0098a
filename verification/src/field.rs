//! The fields of a bundle record and the keys that stand for them in the text form.

use vstd::prelude::*;

verus! {

/// A field of the bundle record, in the order in which the record is written.
#[derive(Clone, Copy, Debug, PartialEq, Eq, Structural)]
pub enum Field {
    Name,
    Kind,
    StoreId,
    HomebrewId,
    Exec,
    EncryptedImage,
    Version,
    Background,
    PreferXboxMode,
    Launcher,
    LauncherTags,
    LauncherExec,
}

/// How many fields the record has.
pub const FIELD_COUNT: usize = 12;

/// The key under which a field is written.
pub open spec fn key_text(field: Field) -> Seq<char> {
    match field {
        Field::Name => "Name"@,
        Field::Kind => "Type"@,
        Field::StoreId => "StoreID"@,
        Field::HomebrewId => "HomebrewID"@,
        Field::Exec => "Exec"@,
        Field::EncryptedImage => "EncryptedImage"@,
        Field::Version => "Version"@,
        Field::Background => "Background"@,
        Field::PreferXboxMode => "PreferXBoxMode"@,
        Field::Launcher => "Launcher"@,
        Field::LauncherTags => "LauncherTags"@,
        Field::LauncherExec => "LauncherExec"@,
    }
}

/// The field that a key stands for; keys are matched exactly, letter case included.
pub open spec fn field_of_key(key: Seq<char>) -> Option<Field> {
    if key == "Name"@ {
        Some(Field::Name)
    } else if key == "Type"@ {
        Some(Field::Kind)
    } else if key == "StoreID"@ {
        Some(Field::StoreId)
    } else if key == "HomebrewID"@ {
        Some(Field::HomebrewId)
    } else if key == "Exec"@ {
        Some(Field::Exec)
    } else if key == "EncryptedImage"@ {
        Some(Field::EncryptedImage)
    } else if key == "Version"@ {
        Some(Field::Version)
    } else if key == "Background"@ {
        Some(Field::Background)
    } else if key == "PreferXBoxMode"@ {
        Some(Field::PreferXboxMode)
    } else if key == "Launcher"@ {
        Some(Field::Launcher)
    } else if key == "LauncherTags"@ {
        Some(Field::LauncherTags)
    } else if key == "LauncherExec"@ {
        Some(Field::LauncherExec)
    } else {
        None
    }
}

/// The place of a field in the written order, from 0.
pub open spec fn field_index(field: Field) -> int {
    match field {
        Field::Name => 0,
        Field::Kind => 1,
        Field::StoreId => 2,
        Field::HomebrewId => 3,
        Field::Exec => 4,
        Field::EncryptedImage => 5,
        Field::Version => 6,
        Field::Background => 7,
        Field::PreferXboxMode => 8,
        Field::Launcher => 9,
        Field::LauncherTags => 10,
        Field::LauncherExec => 11,
    }
}

/// The field at a place of the written order.
pub open spec fn field_at(index: int) -> Field {
    if index == 0 {
        Field::Name
    } else if index == 1 {
        Field::Kind
    } else if index == 2 {
        Field::StoreId
    } else if index == 3 {
        Field::HomebrewId
    } else if index == 4 {
        Field::Exec
    } else if index == 5 {
        Field::EncryptedImage
    } else if index == 6 {
        Field::Version
    } else if index == 7 {
        Field::Background
    } else if index == 8 {
        Field::PreferXboxMode
    } else if index == 9 {
        Field::Launcher
    } else if index == 10 {
        Field::LauncherTags
    } else {
        Field::LauncherExec
    }
}

/// Every field is found again under its own key: no two fields share a key.
pub proof fn lemma_key_of_field(field: Field)
    ensures
        field_of_key(key_text(field)) == Some(field),
{
    reveal_strlit("Name");
    reveal_strlit("Type");
    reveal_strlit("StoreID");
    reveal_strlit("HomebrewID");
    reveal_strlit("Exec");
    reveal_strlit("EncryptedImage");
    reveal_strlit("Version");
    reveal_strlit("Background");
    reveal_strlit("PreferXBoxMode");
    reveal_strlit("Launcher");
    reveal_strlit("LauncherTags");
    reveal_strlit("LauncherExec");
    assert("Name"@.len() == 4 && "Name"@[0] == 'N');
    assert("Type"@.len() == 4 && "Type"@[0] == 'T');
    assert("Exec"@.len() == 4 && "Exec"@[0] == 'E');
    assert("StoreID"@.len() == 7 && "StoreID"@[0] == 'S');
    assert("Version"@.len() == 7 && "Version"@[0] == 'V');
    assert("HomebrewID"@.len() == 10 && "HomebrewID"@[0] == 'H');
    assert("Background"@.len() == 10 && "Background"@[0] == 'B');
    assert("EncryptedImage"@.len() == 14 && "EncryptedImage"@[0] == 'E');
    assert("PreferXBoxMode"@.len() == 14 && "PreferXBoxMode"@[0] == 'P');
    assert("Launcher"@.len() == 8);
    assert("LauncherTags"@.len() == 12 && "LauncherTags"@[8] == 'T');
    assert("LauncherExec"@.len() == 12 && "LauncherExec"@[8] == 'E');
}

/// A key that stands for a field is that field's key.
pub proof fn lemma_field_of_key(key: Seq<char>)
    ensures
        field_of_key(key) matches Some(field) ==> key_text(field) == key,
{
}

/// Two fields with the same key are the same field.
pub proof fn lemma_keys_differ(a: Field, b: Field)
    ensures
        key_text(a) == key_text(b) ==> a == b,
{
    lemma_key_of_field(a);
    lemma_key_of_field(b);
}

impl Field {
    /// The key under which the field is written.
    pub fn key(&self) -> (key: &'static str)
        ensures
            key@ == key_text(*self),
    {
        match self {
            Field::Name => "Name",
            Field::Kind => "Type",
            Field::StoreId => "StoreID",
            Field::HomebrewId => "HomebrewID",
            Field::Exec => "Exec",
            Field::EncryptedImage => "EncryptedImage",
            Field::Version => "Version",
            Field::Background => "Background",
            Field::PreferXboxMode => "PreferXBoxMode",
            Field::Launcher => "Launcher",
            Field::LauncherTags => "LauncherTags",
            Field::LauncherExec => "LauncherExec",
        }
    }

    /// The field that `key` stands for, if it stands for one.
    pub fn from_key(key: &str) -> (field: Option<Field>)
        ensures
            field == field_of_key(key@),
    {
        if key.eq("Name") {
            Some(Field::Name)
        } else if key.eq("Type") {
            Some(Field::Kind)
        } else if key.eq("StoreID") {
            Some(Field::StoreId)
        } else if key.eq("HomebrewID") {
            Some(Field::HomebrewId)
        } else if key.eq("Exec") {
            Some(Field::Exec)
        } else if key.eq("EncryptedImage") {
            Some(Field::EncryptedImage)
        } else if key.eq("Version") {
            Some(Field::Version)
        } else if key.eq("Background") {
            Some(Field::Background)
        } else if key.eq("PreferXBoxMode") {
            Some(Field::PreferXboxMode)
        } else if key.eq("Launcher") {
            Some(Field::Launcher)
        } else if key.eq("LauncherTags") {
            Some(Field::LauncherTags)
        } else if key.eq("LauncherExec") {
            Some(Field::LauncherExec)
        } else {
            None
        }
    }

    /// The field at a place of the written order, if the order has that place.
    pub fn at(index: usize) -> (field: Option<Field>)
        ensures
            match field {
                Some(field) => index < FIELD_COUNT && field == field_at(index as int)
                    && field_index(field) == index,
                None => index >= FIELD_COUNT,
            },
    {
        if index == 0 {
            Some(Field::Name)
        } else if index == 1 {
            Some(Field::Kind)
        } else if index == 2 {
            Some(Field::StoreId)
        } else if index == 3 {
            Some(Field::HomebrewId)
        } else if index == 4 {
            Some(Field::Exec)
        } else if index == 5 {
            Some(Field::EncryptedImage)
        } else if index == 6 {
            Some(Field::Version)
        } else if index == 7 {
            Some(Field::Background)
        } else if index == 8 {
            Some(Field::PreferXboxMode)
        } else if index == 9 {
            Some(Field::Launcher)
        } else if index == 10 {
            Some(Field::LauncherTags)
        } else if index == 11 {
            Some(Field::LauncherExec)
        } else {
            None
        }
    }
}

} // verus!
