//! Reading a manifest from the lines of its text.

use crate::bundle::{
    document_bytes, document_lines, section_name, Bundle, BundleConfig, BundleConfigView, BundleView,
};
use crate::error::{field_fault, BundleError, BundleResult, DecodeError, DecodeErrorView};
use crate::field::{field_of_key, key_text, lemma_field_of_key, lemma_keys_differ, Field};
use crate::ini::{
    as_read, parsed_lines, read_lines, read_view, read_views, written, Line, LineView, ReadLine,
};
use crate::laws::{comes_back, law_round_trip, lemma_document_plain};
use crate::kind::{parse_kind, BundleType};
use crate::scalar::{de_keyfile_bool, de_keyfile_list, parse_all, parse_bool, parse_list, segments, TextValue};
use crate::text::views;
use vstd::prelude::*;
use vstd::string::StringExecFns;

verus! {

/// Whether a line opens a section.
pub open spec fn is_section(line: ReadLine) -> bool {
    line matches Ok(LineView::Section { .. })
}

/// The value of the first line among `body` that has the key `key`.
pub open spec fn lookup(body: Seq<ReadLine>, key: Seq<char>) -> Option<Seq<char>>
    decreases body.len(),
{
    if body.len() == 0 {
        None
    } else {
        let before = lookup(body.drop_last(), key);
        if before is Some {
            before
        } else {
            match body.last() {
                Ok(LineView::Value { key: k, value }) => if k == key {
                    Some(value)
                } else {
                    None
                },
                _ => None,
            }
        }
    }
}

/// What is wrong with a value as the value of a field, if anything is: the
/// kind, the two flags and the list of tags have a text form of their own,
/// every other field takes any text.
pub open spec fn value_fault(field: Field, value: Seq<char>) -> Option<DecodeErrorView> {
    match field {
        Field::Kind => match parse_kind(value) {
            Ok(_) => None,
            Err(cause) => Some(field_fault(cause)),
        },
        Field::Background | Field::PreferXboxMode => match parse_bool(value) {
            Ok(_) => None,
            Err(cause) => Some(field_fault(cause)),
        },
        Field::LauncherTags => match parse_list::<String>(value) {
            Ok(_) => None,
            Err(e) => Some(e),
        },
        _ => None,
    }
}

/// What is wrong with a line of the section, if anything is, given the lines
/// of the section before it: a line that could not be read, a key that stands
/// for no field, a key that one of the lines before has too, or a value that
/// the key's field does not take.
pub open spec fn line_fault(seen: Seq<ReadLine>, line: ReadLine) -> Option<DecodeErrorView> {
    match line {
        Err(message) => Some(DecodeErrorView::Malformed { message }),
        Ok(LineView::Value { key, value }) => match field_of_key(key) {
            None => Some(DecodeErrorView::UnknownField { key }),
            Some(field) => if lookup(seen, key) is Some {
                Some(DecodeErrorView::DuplicateField { field })
            } else {
                value_fault(field, value)
            },
        },
        Ok(_) => None,
    }
}

/// The fault of the first line at or after `from` that has one.
pub open spec fn fault_from(body: Seq<ReadLine>, from: int) -> Option<DecodeErrorView>
    decreases body.len() - from,
{
    if from < 0 || from >= body.len() {
        None
    } else {
        match line_fault(body.take(from), body[from]) {
            Some(e) => Some(e),
            None => fault_from(body, from + 1),
        }
    }
}

/// The fault of the first line of the section that has one.
pub open spec fn first_fault(body: Seq<ReadLine>) -> Option<DecodeErrorView> {
    fault_from(body, 0)
}

/// The flag that the lines give under `key`: down where no line has the key.
pub open spec fn flag_of(body: Seq<ReadLine>, key: Seq<char>) -> bool {
    match lookup(body, key) {
        Some(text) => parse_bool(text)->Ok_0,
        None => false,
    }
}

/// The record that the lines of a section without fault give: each field from
/// the line with its key, and in its empty state where there is none. The
/// name and the kind must be there.
pub open spec fn assemble(body: Seq<ReadLine>) -> Result<BundleView, DecodeErrorView> {
    let name = lookup(body, key_text(Field::Name));
    let kind = lookup(body, key_text(Field::Kind));
    if name is None {
        Err(DecodeErrorView::MissingField { field: Field::Name })
    } else if kind is None {
        Err(DecodeErrorView::MissingField { field: Field::Kind })
    } else {
        Ok(
            BundleView {
                name: name->0,
                bundle_type: parse_kind(kind->0)->Ok_0,
                store_id: lookup(body, key_text(Field::StoreId)),
                homebrew_id: lookup(body, key_text(Field::HomebrewId)),
                executable: lookup(body, key_text(Field::Exec)),
                encrypted_image: lookup(body, key_text(Field::EncryptedImage)),
                version: lookup(body, key_text(Field::Version)),
                background: flag_of(body, key_text(Field::Background)),
                prefer_xbox_mode: flag_of(body, key_text(Field::PreferXboxMode)),
                launcher: lookup(body, key_text(Field::Launcher)),
                launcher_tags: match lookup(body, key_text(Field::LauncherTags)) {
                    Some(text) => segments(text),
                    None => Seq::empty(),
                },
                launcher_exec: lookup(body, key_text(Field::LauncherExec)),
            },
        )
    }
}

/// The record that the lines of a section stand for: the first fault among
/// the lines fails it; without a fault, a missing name fails it, then a
/// missing kind.
pub open spec fn section_record(body: Seq<ReadLine>) -> Result<BundleView, DecodeErrorView> {
    match first_fault(body) {
        Some(e) => Err(e),
        None => assemble(body),
    }
}

/// Where the section that begins at `from` ends: at the next line that opens
/// a section, or at the end of the text.
pub open spec fn section_end(lines: Seq<ReadLine>, from: int) -> int
    decreases lines.len() - from,
{
    if from < 0 || from >= lines.len() {
        lines.len() as int
    } else if is_section(lines[from]) {
        from
    } else {
        section_end(lines, from + 1)
    }
}

/// The lines of the section that begins at `from`.
pub open spec fn section_body(lines: Seq<ReadLine>, from: int) -> Seq<ReadLine> {
    lines.subrange(from, section_end(lines, from))
}

/// The manifest that the lines from `at` on stand for. `preamble` says that no
/// section has begun yet, `found` is the record of the `Bundle` section if one
/// was read.
///
/// A line that could not be read fails the manifest where it stands. The
/// `Bundle` section is read as the record; a second one is an error. Other
/// sections are passed over with all their lines, and so are the keys before
/// the first section, but for a key `Bundle`, which is an error there. At the
/// end the record must have been found.
pub open spec fn scan(lines: Seq<ReadLine>, at: int, preamble: bool, found: Option<BundleView>) -> Result<
    BundleConfigView,
    DecodeErrorView,
>
    decreases lines.len() - at,
{
    if at < 0 || at >= lines.len() {
        match found {
            Some(bundle) => Ok(BundleConfigView { bundle }),
            None => Err(DecodeErrorView::MissingSection),
        }
    } else {
        match lines[at] {
            Err(message) => Err(DecodeErrorView::Malformed { message }),
            Ok(LineView::Section { name }) => if name == section_name() {
                if found is Some {
                    Err(DecodeErrorView::DuplicateSection)
                } else {
                    match section_record(section_body(lines, at + 1)) {
                        Err(e) => Err(e),
                        Ok(bundle) => scan(lines, at + 1, false, Some(bundle)),
                    }
                }
            } else {
                scan(lines, at + 1, false, found)
            },
            Ok(LineView::Value { key, value }) => if preamble && key == section_name() {
                Err(DecodeErrorView::ExpectedSection)
            } else {
                scan(lines, at + 1, preamble, found)
            },
            Ok(_) => scan(lines, at + 1, preamble, found),
        }
    }
}

/// The manifest that the lines of a text stand for.
pub open spec fn decode_document(lines: Seq<ReadLine>) -> Result<BundleConfigView, DecodeErrorView> {
    scan(lines, 0, true, None)
}

/// A section ends at or after its beginning, within the text.
pub proof fn lemma_section_end_bounds(lines: Seq<ReadLine>, from: int)
    requires
        0 <= from <= lines.len(),
    ensures
        from <= section_end(lines, from) <= lines.len(),
    decreases lines.len() - from,
{
    if from < lines.len() && !is_section(lines[from]) {
        lemma_section_end_bounds(lines, from + 1);
    }
}

/// A fault of a line makes a fault of the section, and the first fault is
/// that of the first line that has one.
pub proof fn lemma_fault_found(body: Seq<ReadLine>, at: int, from: int)
    requires
        0 <= from <= at < body.len(),
        line_fault(body.take(at), body[at]) is Some,
    ensures
        fault_from(body, from) is Some,
        (forall|j: int| from <= j < at ==> line_fault(#[trigger] body.take(j), body[j]) is None)
            ==> fault_from(body, from) == line_fault(body.take(at), body[at]),
    decreases at - from,
{
    if from < at {
        lemma_fault_found(body, at, from + 1);
    }
}

/// The lines of a section that has no fault are passed over once the section
/// has been read: reading goes on where the section ends.
pub proof fn lemma_section_passed_over(
    lines: Seq<ReadLine>,
    start: int,
    at: int,
    found: Option<BundleView>,
)
    requires
        0 <= start <= at <= section_end(lines, start) <= lines.len(),
        section_end(lines, at) == section_end(lines, start),
        first_fault(section_body(lines, start)) is None,
    ensures
        scan(lines, at, false, found) == scan(lines, section_end(lines, start), false, found),
    decreases lines.len() - at,
{
    let end = section_end(lines, start);
    let body = section_body(lines, start);
    if at < end {
        assert(body[at - start] == lines[at]);
        if line_fault(body.take(at - start), body[at - start]) is Some {
            lemma_fault_found(body, at - start, 0);
        }
        lemma_section_end_bounds(lines, at + 1);
        lemma_section_passed_over(lines, start, at + 1, found);
    }
}

/// Every text is a list of texts: an element that is a text is never refused.
pub proof fn lemma_parse_all_plain(written: Seq<Seq<char>>)
    ensures
        parse_all::<String>(written) == Ok::<Seq<Seq<char>>, DecodeErrorView>(written),
    decreases written.len(),
{
    if written.len() == 0 {
        assert(written =~= Seq::empty());
    } else {
        lemma_parse_all_plain(written.drop_last());
        assert(written.drop_last().push(written.last()) =~= written);
    }
}

/// What a field holds while a section is read.
enum Slot {
    Absent,
    Text(Seq<char>),
    Kind(BundleType),
    Flag(bool),
    List(Seq<Seq<char>>),
}

/// What the text found for a field puts into its slot.
spec fn slot_of(field: Field, found: Option<Seq<char>>) -> Slot {
    match found {
        None => Slot::Absent,
        Some(text) => match field {
            Field::Kind => Slot::Kind(parse_kind(text)->Ok_0),
            Field::Background | Field::PreferXboxMode => Slot::Flag(parse_bool(text)->Ok_0),
            Field::LauncherTags => Slot::List(segments(text)),
            _ => Slot::Text(text),
        },
    }
}

spec fn text_slot(text: Option<String>) -> Slot {
    match text {
        Some(text) => Slot::Text(text@),
        None => Slot::Absent,
    }
}

spec fn flag_slot(flag: Option<bool>) -> Slot {
    match flag {
        Some(flag) => Slot::Flag(flag),
        None => Slot::Absent,
    }
}

/// The values read so far from the lines of a section.
struct Draft {
    name: Option<String>,
    kind: Option<BundleType>,
    store_id: Option<String>,
    homebrew_id: Option<String>,
    executable: Option<String>,
    encrypted_image: Option<String>,
    version: Option<String>,
    background: Option<bool>,
    prefer_xbox_mode: Option<bool>,
    launcher: Option<String>,
    launcher_tags: Option<Vec<String>>,
    launcher_exec: Option<String>,
}

impl Draft {
    spec fn slot(&self, field: Field) -> Slot {
        match field {
            Field::Name => text_slot(self.name),
            Field::Kind => match self.kind {
                Some(kind) => Slot::Kind(kind),
                None => Slot::Absent,
            },
            Field::StoreId => text_slot(self.store_id),
            Field::HomebrewId => text_slot(self.homebrew_id),
            Field::Exec => text_slot(self.executable),
            Field::EncryptedImage => text_slot(self.encrypted_image),
            Field::Version => text_slot(self.version),
            Field::Background => flag_slot(self.background),
            Field::PreferXboxMode => flag_slot(self.prefer_xbox_mode),
            Field::Launcher => text_slot(self.launcher),
            Field::LauncherTags => match self.launcher_tags {
                Some(tags) => Slot::List(views(tags@)),
                None => Slot::Absent,
            },
            Field::LauncherExec => text_slot(self.launcher_exec),
        }
    }

    /// Whether the slots hold what the lines `seen` give.
    spec fn holds(&self, seen: Seq<ReadLine>) -> bool {
        forall|field: Field| #[trigger] self.slot(field) == slot_of(field, lookup(seen, key_text(field)))
    }

    fn new() -> (draft: Draft)
        ensures
            forall|field: Field| #[trigger] draft.slot(field) is Absent,
    {
        Draft {
            name: None,
            kind: None,
            store_id: None,
            homebrew_id: None,
            executable: None,
            encrypted_image: None,
            version: None,
            background: None,
            prefer_xbox_mode: None,
            launcher: None,
            launcher_tags: None,
            launcher_exec: None,
        }
    }

    fn filled(&self, field: Field) -> (r: bool)
        ensures
            r == !(self.slot(field) is Absent),
    {
        match field {
            Field::Name => self.name.is_some(),
            Field::Kind => self.kind.is_some(),
            Field::StoreId => self.store_id.is_some(),
            Field::HomebrewId => self.homebrew_id.is_some(),
            Field::Exec => self.executable.is_some(),
            Field::EncryptedImage => self.encrypted_image.is_some(),
            Field::Version => self.version.is_some(),
            Field::Background => self.background.is_some(),
            Field::PreferXboxMode => self.prefer_xbox_mode.is_some(),
            Field::Launcher => self.launcher.is_some(),
            Field::LauncherTags => self.launcher_tags.is_some(),
            Field::LauncherExec => self.launcher_exec.is_some(),
        }
    }

    /// Reads `value` as the value of `field` and keeps it.
    fn put(&mut self, field: Field, value: &str) -> (r: Result<(), DecodeError>)
        ensures
            match r {
                Ok(_) => {
                    &&& value_fault(field, value@) is None
                    &&& final(self).slot(field) == slot_of(field, Some(value@))
                    &&& forall|other: Field|
                        other != field ==> #[trigger] final(self).slot(other) == old(self).slot(other)
                },
                Err(e) => value_fault(field, value@) == Some(e@),
            },
    {
        match field {
            Field::Name => {
                self.name = Some(String::from_str(value));
            },
            Field::Kind => {
                match BundleType::from_text(value) {
                    Ok(kind) => {
                        self.kind = Some(kind);
                    },
                    Err(cause) => {
                        return Err(DecodeError::of_field(cause));
                    },
                }
            },
            Field::StoreId => {
                self.store_id = Some(String::from_str(value));
            },
            Field::HomebrewId => {
                self.homebrew_id = Some(String::from_str(value));
            },
            Field::Exec => {
                self.executable = Some(String::from_str(value));
            },
            Field::EncryptedImage => {
                self.encrypted_image = Some(String::from_str(value));
            },
            Field::Version => {
                self.version = Some(String::from_str(value));
            },
            Field::Background => {
                match de_keyfile_bool(value) {
                    Ok(flag) => {
                        self.background = Some(flag);
                    },
                    Err(cause) => {
                        return Err(DecodeError::of_field(cause));
                    },
                }
            },
            Field::PreferXboxMode => {
                match de_keyfile_bool(value) {
                    Ok(flag) => {
                        self.prefer_xbox_mode = Some(flag);
                    },
                    Err(cause) => {
                        return Err(DecodeError::of_field(cause));
                    },
                }
            },
            Field::Launcher => {
                self.launcher = Some(String::from_str(value));
            },
            Field::LauncherTags => {
                match de_keyfile_list::<String>(value) {
                    Ok(tags) => {
                        proof {
                            lemma_parse_all_plain(segments(value@));
                        }
                        self.launcher_tags = Some(tags);
                    },
                    Err(e) => {
                        return Err(e);
                    },
                }
            },
            Field::LauncherExec => {
                self.launcher_exec = Some(String::from_str(value));
            },
        }
        Ok(())
    }

    /// The record that the slots make.
    fn finish(self, Ghost(body): Ghost<Seq<ReadLine>>) -> (r: Result<Bundle, DecodeError>)
        requires
            self.holds(body),
        ensures
            match r {
                Ok(bundle) => assemble(body) == Ok::<BundleView, DecodeErrorView>(bundle@),
                Err(e) => assemble(body) == Err::<BundleView, DecodeErrorView>(e@),
            },
    {
        proof {
            assert(self.slot(Field::Name) == slot_of(Field::Name, lookup(body, key_text(Field::Name))));
            assert(self.slot(Field::Kind) == slot_of(Field::Kind, lookup(body, key_text(Field::Kind))));
            assert(self.slot(Field::StoreId) == slot_of(Field::StoreId, lookup(body, key_text(Field::StoreId))));
            assert(self.slot(Field::HomebrewId) == slot_of(Field::HomebrewId, lookup(body, key_text(Field::HomebrewId))));
            assert(self.slot(Field::Exec) == slot_of(Field::Exec, lookup(body, key_text(Field::Exec))));
            assert(self.slot(Field::EncryptedImage) == slot_of(Field::EncryptedImage, lookup(body, key_text(Field::EncryptedImage))));
            assert(self.slot(Field::Version) == slot_of(Field::Version, lookup(body, key_text(Field::Version))));
            assert(self.slot(Field::Background) == slot_of(Field::Background, lookup(body, key_text(Field::Background))));
            assert(self.slot(Field::PreferXboxMode) == slot_of(Field::PreferXboxMode, lookup(body, key_text(Field::PreferXboxMode))));
            assert(self.slot(Field::Launcher) == slot_of(Field::Launcher, lookup(body, key_text(Field::Launcher))));
            assert(self.slot(Field::LauncherTags) == slot_of(Field::LauncherTags, lookup(body, key_text(Field::LauncherTags))));
            assert(self.slot(Field::LauncherExec) == slot_of(Field::LauncherExec, lookup(body, key_text(Field::LauncherExec))));
        }
        let name = match self.name {
            Some(name) => name,
            None => {
                return Err(DecodeError::MissingField { field: Field::Name });
            },
        };
        let bundle_type = match self.kind {
            Some(kind) => kind,
            None => {
                return Err(DecodeError::MissingField { field: Field::Kind });
            },
        };
        let background = match self.background {
            Some(flag) => flag,
            None => false,
        };
        let prefer_xbox_mode = match self.prefer_xbox_mode {
            Some(flag) => flag,
            None => false,
        };
        let launcher_tags = match self.launcher_tags {
            Some(tags) => tags,
            None => Vec::new(),
        };
        let bundle = Bundle {
            name,
            bundle_type,
            store_id: self.store_id,
            homebrew_id: self.homebrew_id,
            executable: self.executable,
            encrypted_image: self.encrypted_image,
            version: self.version,
            background,
            prefer_xbox_mode,
            launcher: self.launcher,
            launcher_tags,
            launcher_exec: self.launcher_exec,
        };
        proof {
            assert(bundle@.launcher_tags =~= assemble(body)->Ok_0.launcher_tags);
        }
        Ok(bundle)
    }
}

/// Whether the line opens a section.
fn opens_section(line: &Result<Line, String>) -> (r: bool)
    ensures
        r == is_section(read_view(*line)),
{
    match line {
        Ok(Line::Section { .. }) => true,
        _ => false,
    }
}

/// Reads the record from the lines of the section that begins at `start`,
/// and says where the section ends.
fn read_section(lines: &Vec<Result<Line, String>>, start: usize) -> (r: Result<
    (Bundle, usize),
    DecodeError,
>)
    requires
        start <= lines.len(),
    ensures
        match r {
            Ok((bundle, end)) => {
                &&& section_record(section_body(read_views(lines@), start as int)) == Ok::<
                    BundleView,
                    DecodeErrorView,
                >(bundle@)
                &&& end == section_end(read_views(lines@), start as int)
            },
            Err(e) => section_record(section_body(read_views(lines@), start as int)) == Err::<
                BundleView,
                DecodeErrorView,
            >(e@),
        },
{
    let ghost all = read_views(lines@);
    let ghost end = section_end(all, start as int);
    let ghost body = section_body(all, start as int);
    let mut draft = Draft::new();
    let mut k = start;
    proof {
        lemma_section_end_bounds(all, start as int);
        assert(body.take(0) =~= Seq::empty());
    }
    while k < lines.len() && !opens_section(&lines[k])
        invariant
            start <= k <= end <= lines.len(),
            all == read_views(lines@),
            end == section_end(all, start as int),
            body == all.subrange(start as int, end),
            section_end(all, k as int) == end,
            fault_from(body, k - start) == first_fault(body),
            draft.holds(body.take(k - start)),
        decreases lines.len() - k,
    {
        let ghost seen = body.take(k - start);
        let ghost line = all[k as int];
        proof {
            assert(line == read_view(lines@[k as int]));
            lemma_section_end_bounds(all, k + 1);
            assert(body[k - start] == line);
            assert(body.take(k - start + 1) =~= seen.push(line));
            assert(seen.push(line).drop_last() =~= seen);
        }
        match &lines[k] {
            Err(message) => {
                return Err(DecodeError::Malformed { message: message.clone() });
            },
            Ok(Line::Value { key, value }) => {
                match Field::from_key(key.as_str()) {
                    None => {
                        return Err(DecodeError::UnknownField { key: key.clone() });
                    },
                    Some(field) => {
                        proof {
                            lemma_field_of_key(key@);
                            assert(draft.slot(field) == slot_of(field, lookup(seen, key_text(field))));
                        }
                        if draft.filled(field) {
                            return Err(DecodeError::DuplicateField { field });
                        }
                        let ghost before = draft;
                        match draft.put(field, value.as_str()) {
                            Err(e) => {
                                return Err(e);
                            },
                            Ok(_) => {
                                proof {
                                    assert forall|other: Field| #[trigger]
                                        draft.slot(other) == slot_of(
                                            other,
                                            lookup(seen.push(line), key_text(other)),
                                        ) by {
                                        lemma_keys_differ(other, field);
                                        if other != field {
                                            assert(draft.slot(other) == before.slot(other));
                                            assert(before.slot(other) == slot_of(
                                                other,
                                                lookup(seen, key_text(other)),
                                            ));
                                        }
                                    }
                                }
                            },
                        }
                    },
                }
            },
            Ok(_) => {
                proof {
                    assert forall|other: Field| #[trigger]
                        draft.slot(other) == slot_of(
                            other,
                            lookup(seen.push(line), key_text(other)),
                        ) by {
                        assert(draft.slot(other) == slot_of(other, lookup(seen, key_text(other))));
                    }
                }
            },
        }
        k = k + 1;
    }
    proof {
        assert(body.take(k - start) =~= body);
    }
    match draft.finish(Ghost(body)) {
        Ok(bundle) => Ok((bundle, k)),
        Err(e) => Err(e),
    }
}

impl BundleConfig {
    /// Reads the manifest from the lines of its text.
    pub fn decode(lines: &Vec<Result<Line, String>>) -> (r: Result<BundleConfig, DecodeError>)
        ensures
            decoded_view(r) == decode_document(read_views(lines@)),
    {
        let ghost all = read_views(lines@);
        let mut found: Option<Bundle> = None;
        let mut preamble = true;
        let mut i: usize = 0;
        while i < lines.len()
            invariant
                i <= lines.len(),
                all == read_views(lines@),
                decode_document(all) == scan(all, i as int, preamble, found_view(found)),
            decreases lines.len() - i,
        {
            proof {
                assert(all[i as int] == read_view(lines@[i as int]));
            }
            let mut next = i + 1;
            match &lines[i] {
                Err(message) => {
                    return Err(DecodeError::Malformed { message: message.clone() });
                },
                Ok(Line::Section { name }) => {
                    if name.as_str().eq("Bundle") {
                        if found.is_some() {
                            return Err(DecodeError::DuplicateSection);
                        }
                        match read_section(lines, i + 1) {
                            Err(e) => {
                                return Err(e);
                            },
                            Ok((bundle, end)) => {
                                proof {
                                    lemma_section_end_bounds(all, i + 1);
                                    lemma_section_passed_over(all, i + 1, i + 1, Some(bundle@));
                                }
                                found = Some(bundle);
                                next = end;
                            },
                        }
                    }
                    preamble = false;
                },
                Ok(Line::Value { key, .. }) => {
                    if preamble && key.as_str().eq("Bundle") {
                        return Err(DecodeError::ExpectedSection);
                    }
                },
                Ok(_) => {},
            }
            i = next;
        }
        match found {
            Some(bundle) => Ok(BundleConfig { bundle }),
            None => Err(DecodeError::MissingSection),
        }
    }

    /// Reads the manifest from the bytes of its text: the INI parser cuts the
    /// bytes into lines, and the lines are read as by [`BundleConfig::decode`].
    /// Every failure is an error of reading.
    ///
    /// Reading undoes writing: the bytes that [`BundleConfig::to_write`]
    /// writes for a manifest give that manifest back, provided the written
    /// values of the manifest are plain and its tags are faithful.
    pub fn from_read(read: &[u8]) -> (r: BundleResult<BundleConfig>)
        ensures
            hands_on(r, decode_document(parsed_lines(read@))),
            forall|config: BundleConfigView|
                comes_back(config) && #[trigger] document_bytes(config) == read@ ==> hands_on(
                    r,
                    Ok(config),
                ),
    {
        let lines = read_lines(read);
        proof {
            assert forall|config: BundleConfigView|
                comes_back(config) && #[trigger] document_bytes(config)
                    == read@ implies parsed_lines(read@) == as_read(document_lines(config))
                && decode_document(parsed_lines(read@)) == Ok::<BundleConfigView, DecodeErrorView>(
                config,
            ) by {
                lemma_document_plain(config);
                law_round_trip(config);
                assert(written(document_lines(config)) == read@);
            }
        }
        match BundleConfig::decode(&lines) {
            Ok(config) => Ok(config),
            Err(e) => Err(BundleError::De(e)),
        }
    }
}

/// The model of what reading a manifest gave.
pub open spec fn decoded_view(r: Result<BundleConfig, DecodeError>) -> Result<
    BundleConfigView,
    DecodeErrorView,
> {
    match r {
        Ok(config) => Ok(config@),
        Err(e) => Err(e@),
    }
}

/// Whether `r` hands on what reading a manifest gave, a failure as an error of reading.
pub open spec fn hands_on(
    r: BundleResult<BundleConfig>,
    read: Result<BundleConfigView, DecodeErrorView>,
) -> bool {
    match r {
        Ok(config) => read == Ok::<BundleConfigView, DecodeErrorView>(config@),
        Err(BundleError::De(e)) => read == Err::<BundleConfigView, DecodeErrorView>(e@),
        Err(_) => false,
    }
}

/// The model of a record that may not have been found yet.
pub open spec fn found_view(found: Option<Bundle>) -> Option<BundleView> {
    match found {
        Some(bundle) => Some(bundle@),
        None => None,
    }
}

} // verus!
