//! The bundle record and the container that holds it.

use crate::error::BundleResult;
use crate::field::{field_at, key_text, Field, FIELD_COUNT};
use crate::ini::{write_lines, written, Line, LineView};
use crate::kind::{kind_text, BundleType};
use crate::scalar::{bool_text, list_text, ser_keyfile_bool, ser_keyfile_list, TextValue};
use crate::text::views;
use vstd::prelude::*;
use vstd::string::StringExecFns;

verus! {

/// How a packaged application is launched and identified.
#[derive(Clone, Debug, PartialEq, Eq)]
pub struct Bundle {
    /// The display name.
    pub name: String,
    /// What the bundle holds.
    pub bundle_type: BundleType,
    /// The identifier that a catalog issued.
    pub store_id: Option<String>,
    /// The identifier that was assigned locally.
    pub homebrew_id: Option<String>,
    /// The primary executable.
    pub executable: Option<String>,
    /// The name of an encrypted disk image that holds the payload.
    pub encrypted_image: Option<String>,
    /// The version, as an opaque text.
    pub version: Option<String>,
    /// Whether the bundle runs in the background.
    pub background: bool,
    /// Whether the bundle prefers the Xbox mode.
    pub prefer_xbox_mode: bool,
    /// The name of the launcher that the bundle needs.
    pub launcher: Option<String>,
    /// The tags of the launcher that this bundle provides.
    pub launcher_tags: Vec<String>,
    /// The executable of the launcher that this bundle provides.
    pub launcher_exec: Option<String>,
}

/// The model of a [`Bundle`].
pub struct BundleView {
    pub name: Seq<char>,
    pub bundle_type: BundleType,
    pub store_id: Option<Seq<char>>,
    pub homebrew_id: Option<Seq<char>>,
    pub executable: Option<Seq<char>>,
    pub encrypted_image: Option<Seq<char>>,
    pub version: Option<Seq<char>>,
    pub background: bool,
    pub prefer_xbox_mode: bool,
    pub launcher: Option<Seq<char>>,
    pub launcher_tags: Seq<Seq<char>>,
    pub launcher_exec: Option<Seq<char>>,
}

/// The model of a text that may be absent.
pub open spec fn text_of(text: Option<String>) -> Option<Seq<char>> {
    match text {
        Some(text) => Some(text@),
        None => None,
    }
}

impl View for Bundle {
    type V = BundleView;

    open spec fn view(&self) -> BundleView {
        BundleView {
            name: self.name@,
            bundle_type: self.bundle_type,
            store_id: text_of(self.store_id),
            homebrew_id: text_of(self.homebrew_id),
            executable: text_of(self.executable),
            encrypted_image: text_of(self.encrypted_image),
            version: text_of(self.version),
            background: self.background,
            prefer_xbox_mode: self.prefer_xbox_mode,
            launcher: text_of(self.launcher),
            launcher_tags: views(self.launcher_tags@),
            launcher_exec: text_of(self.launcher_exec),
        }
    }
}

/// The one record of a manifest, under its section.
#[derive(Clone, Debug, PartialEq, Eq)]
pub struct BundleConfig {
    pub bundle: Bundle,
}

/// The model of a [`BundleConfig`].
pub struct BundleConfigView {
    pub bundle: BundleView,
}

impl View for BundleConfig {
    type V = BundleConfigView;

    open spec fn view(&self) -> BundleConfigView {
        BundleConfigView { bundle: self.bundle@ }
    }
}

/// The name of the section that holds the record.
pub open spec fn section_name() -> Seq<char> {
    "Bundle"@
}

/// The value under which a field of the record is written, or `None` where the
/// field is left out: a text that is absent, a flag that is down, an empty
/// list. The name and the kind are always written.
pub open spec fn field_text(bundle: BundleView, field: Field) -> Option<Seq<char>> {
    match field {
        Field::Name => Some(bundle.name),
        Field::Kind => Some(kind_text(bundle.bundle_type)),
        Field::StoreId => bundle.store_id,
        Field::HomebrewId => bundle.homebrew_id,
        Field::Exec => bundle.executable,
        Field::EncryptedImage => bundle.encrypted_image,
        Field::Version => bundle.version,
        Field::Background => if bundle.background {
            Some(bool_text(true))
        } else {
            None
        },
        Field::PreferXboxMode => if bundle.prefer_xbox_mode {
            Some(bool_text(true))
        } else {
            None
        },
        Field::Launcher => bundle.launcher,
        Field::LauncherTags => if bundle.launcher_tags.len() > 0 {
            Some(list_text::<String>(bundle.launcher_tags))
        } else {
            None
        },
        Field::LauncherExec => bundle.launcher_exec,
    }
}

/// The lines of the first `count` fields of the record: one line for each
/// field that is written, in the order of the fields.
pub open spec fn field_lines(bundle: BundleView, count: int) -> Seq<LineView>
    decreases count,
{
    if count <= 0 {
        Seq::empty()
    } else {
        let before = field_lines(bundle, count - 1);
        let field = field_at(count - 1);
        match field_text(bundle, field) {
            Some(value) => before.push(LineView::Value { key: key_text(field), value }),
            None => before,
        }
    }
}

/// The lines of a manifest: the section, then the lines of the record.
pub open spec fn document_lines(config: BundleConfigView) -> Seq<LineView> {
    seq![LineView::Section { name: section_name() }] + field_lines(
        config.bundle,
        FIELD_COUNT as int,
    )
}

/// The bytes of a manifest.
pub open spec fn document_bytes(config: BundleConfigView) -> Seq<u8> {
    written(document_lines(config))
}

/// A copy of a text that may be absent.
fn copy_text(text: &Option<String>) -> (copy: Option<String>)
    ensures
        text_of(copy) == text_of(*text),
{
    match text {
        Some(text) => Some(text.clone()),
        None => None,
    }
}

impl Bundle {
    /// The value under which a field is written, if the field is written.
    pub fn field_value(&self, field: Field) -> (value: Option<String>)
        ensures
            text_of(value) == field_text(self@, field),
    {
        match field {
            Field::Name => Some(self.name.clone()),
            Field::Kind => Some(self.bundle_type.to_text()),
            Field::StoreId => copy_text(&self.store_id),
            Field::HomebrewId => copy_text(&self.homebrew_id),
            Field::Exec => copy_text(&self.executable),
            Field::EncryptedImage => copy_text(&self.encrypted_image),
            Field::Version => copy_text(&self.version),
            Field::Background => if crate::scalar::is_false(&self.background) {
                None
            } else {
                Some(ser_keyfile_bool(&self.background))
            },
            Field::PreferXboxMode => if crate::scalar::is_false(&self.prefer_xbox_mode) {
                None
            } else {
                Some(ser_keyfile_bool(&self.prefer_xbox_mode))
            },
            Field::Launcher => copy_text(&self.launcher),
            Field::LauncherTags => if self.launcher_tags.is_empty() {
                None
            } else {
                Some(ser_keyfile_list(&self.launcher_tags))
            },
            Field::LauncherExec => copy_text(&self.launcher_exec),
        }
    }
}

impl BundleConfig {
    /// The lines of the manifest: the section line, then one line for each
    /// field that is not in its empty state, in the order of the fields.
    pub fn encode(&self) -> (lines: Vec<Line>)
        ensures
            views(lines@) == document_lines(self@),
    {
        let mut lines: Vec<Line> = Vec::new();
        lines.push(Line::Section { name: String::from_str("Bundle") });
        let mut i: usize = 0;
        proof {
            assert(views(lines@) =~= seq![LineView::Section { name: section_name() }]
                + field_lines(self@.bundle, 0));
        }
        while i < FIELD_COUNT
            invariant
                i <= FIELD_COUNT,
                views(lines@) == seq![LineView::Section { name: section_name() }] + field_lines(
                    self@.bundle,
                    i as int,
                ),
            decreases FIELD_COUNT - i,
        {
            let ghost before = views(lines@);
            if let Some(field) = Field::at(i) {
                if let Some(value) = self.bundle.field_value(field) {
                    let line = Line::Value { key: String::from_str(field.key()), value };
                    lines.push(line);
                    proof {
                        assert(views(lines@) =~= before.push(line@));
                        assert(views(lines@) =~= seq![LineView::Section { name: section_name() }]
                            + field_lines(self@.bundle, i + 1));
                    }
                }
            }
            i = i + 1;
        }
        lines
    }

    /// Writes the manifest at the end of `write`. A buffer takes every byte,
    /// so this succeeds for every manifest, and equal manifests give the same
    /// bytes.
    pub fn to_write(&self, write: &mut Vec<u8>) -> (r: BundleResult<()>)
        ensures
            r is Ok,
            final(write)@ == old(write)@ + document_bytes(self@),
    {
        let lines = self.encode();
        write_lines(write, &lines);
        Ok(())
    }
}

} // verus!
