//! What holds of reading and writing together.

use crate::builder::HomebrewBundleConfigBuilder;
use crate::bundle::{
    document_lines, field_lines, field_text, section_name, BundleConfigView, BundleView,
};
use crate::decode::{
    assemble, decode_document, fault_from, first_fault, is_section, lemma_fault_found,
    lemma_parse_all_plain, lemma_section_end_bounds, lemma_section_passed_over, line_fault, lookup,
    scan, section_body, section_end, section_record, value_fault,
};
use crate::error::DecodeErrorView;
use crate::field::{
    field_at, field_index, field_of_key, key_text, lemma_key_of_field, lemma_keys_differ, Field,
    FIELD_COUNT,
};
use crate::ini::{
    as_read, plain_key, plain_line, plain_lines, plain_section, plain_value, LineView, ReadLine,
};
use crate::kind::lemma_kind_round_trip;
use crate::scalar::{
    lemma_bool_round_trip, lemma_list_round_trip, list_faithful, list_text, segments,
};
use vstd::prelude::*;

verus! {

/// Whether a line gives a value under the key.
pub open spec fn has_key(line: ReadLine, key: Seq<char>) -> bool {
    line matches Ok(LineView::Value { key: k, .. }) && k == key
}

/// Whether a written line gives a value under the key.
pub open spec fn writes_key(line: LineView, key: Seq<char>) -> bool {
    line matches LineView::Value { key: k, .. } && k == key
}

/// Lines that do not have a key give nothing under it.
pub proof fn lemma_lookup_absent(body: Seq<ReadLine>, key: Seq<char>)
    requires
        forall|i: int| 0 <= i < body.len() ==> !has_key(#[trigger] body[i], key),
    ensures
        lookup(body, key) is None,
    decreases body.len(),
{
    if body.len() > 0 {
        let before = body.drop_last();
        assert forall|i: int| 0 <= i < before.len() implies !has_key(#[trigger] before[i], key) by {
            assert(before[i] == body[i]);
        }
        lemma_lookup_absent(before, key);
        assert(!has_key(body[body.len() - 1], key));
    }
}

/// Lines that give nothing under a key do not have the key.
pub proof fn lemma_lookup_none(body: Seq<ReadLine>, key: Seq<char>, i: int)
    requires
        lookup(body, key) is None,
        0 <= i < body.len(),
    ensures
        !has_key(body[i], key),
    decreases body.len(),
{
    if i < body.len() - 1 {
        assert(body.drop_last()[i] == body[i]);
        lemma_lookup_none(body.drop_last(), key, i);
    }
}

/// One more line at the end counts only where no line before it has a fault.
pub proof fn lemma_fault_push(body: Seq<ReadLine>, line: ReadLine, from: int)
    requires
        0 <= from <= body.len(),
    ensures
        fault_from(body.push(line), from) == match fault_from(body, from) {
            Some(e) => Some(e),
            None => line_fault(body, line),
        },
    decreases body.len() - from,
{
    let longer = body.push(line);
    if from == body.len() {
        assert(longer.take(from) =~= body);
        assert(fault_from(longer, from + 1) is None);
    } else {
        assert(longer.take(from) =~= body.take(from));
        assert(longer[from] == body[from]);
        lemma_fault_push(body, line, from + 1);
    }
}

/// Each place of the written order holds one field, and each field has one place.
pub proof fn lemma_field_places(field: Field, index: int)
    ensures
        0 <= field_index(field) < FIELD_COUNT,
        field_at(field_index(field)) == field,
        0 <= index < FIELD_COUNT ==> field_index(field_at(index)) == index,
{
}

/// What the first `count` written fields give back under each key: the
/// written value of the key's field, where that field is among them.
pub proof fn lemma_written_lookup(bundle: BundleView, count: int, field: Field)
    requires
        0 <= count <= FIELD_COUNT,
    ensures
        lookup(as_read(field_lines(bundle, count)), key_text(field)) == if field_index(field) < count {
            field_text(bundle, field)
        } else {
            None
        },
    decreases count,
{
    if count == 0 {
        assert(as_read(field_lines(bundle, 0)) =~= Seq::empty());
    } else {
        let before = as_read(field_lines(bundle, count - 1));
        let last = field_at(count - 1);
        lemma_written_lookup(bundle, count - 1, field);
        lemma_field_places(field, count - 1);
        lemma_keys_differ(field, last);
        match field_text(bundle, last) {
            Some(value) => {
                let line: ReadLine = Ok(LineView::Value { key: key_text(last), value });
                assert(as_read(field_lines(bundle, count)) =~= before.push(line));
                assert(before.push(line).drop_last() =~= before);
            },
            None => {},
        }
    }
}

/// The written fields are lines with a key and a value, and none of them has a fault
/// when read back, provided the tags are faithful.
pub proof fn lemma_written_sound(bundle: BundleView, count: int)
    requires
        0 <= count <= FIELD_COUNT,
        list_faithful::<String>(bundle.launcher_tags),
    ensures
        first_fault(as_read(field_lines(bundle, count))) is None,
        forall|i: int|
            0 <= i < field_lines(bundle, count).len() ==> #[trigger] field_lines(bundle, count)[i] is Value,
    decreases count,
{
    if count == 0 {
        assert(as_read(field_lines(bundle, 0)) =~= Seq::empty());
    } else {
        let before = as_read(field_lines(bundle, count - 1));
        let last = field_at(count - 1);
        lemma_written_sound(bundle, count - 1);
        lemma_field_places(last, count - 1);
        match field_text(bundle, last) {
            Some(value) => {
                let line: ReadLine = Ok(LineView::Value { key: key_text(last), value });
                assert(as_read(field_lines(bundle, count)) =~= before.push(line));
                lemma_fault_push(before, line, 0);
                lemma_key_of_field(last);
                lemma_written_lookup(bundle, count - 1, last);
                lemma_kind_round_trip(bundle.bundle_type);
                lemma_bool_round_trip(true);
                lemma_list_round_trip::<String>(bundle.launcher_tags);
                assert(value_fault(last, value) is None);
                assert(line_fault(before, line) is None);
            },
            None => {},
        }
    }
}

/// Lines without a section line make one section up to their end.
pub proof fn lemma_section_to_the_end(lines: Seq<ReadLine>, from: int)
    requires
        0 <= from <= lines.len(),
        forall|i: int| from <= i < lines.len() ==> !is_section(#[trigger] lines[i]),
    ensures
        section_end(lines, from) == lines.len(),
    decreases lines.len() - from,
{
    if from < lines.len() {
        lemma_section_to_the_end(lines, from + 1);
    }
}

/// The record that the written fields give back is the record that was written,
/// provided the tags are faithful.
pub proof fn lemma_written_record(bundle: BundleView)
    requires
        list_faithful::<String>(bundle.launcher_tags),
    ensures
        section_record(as_read(field_lines(bundle, FIELD_COUNT as int))) == Ok::<
            BundleView,
            DecodeErrorView,
        >(bundle),
{
    let count = FIELD_COUNT as int;
    let body = as_read(field_lines(bundle, count));
    lemma_written_sound(bundle, count);
    lemma_written_lookup(bundle, count, Field::Name);
    lemma_written_lookup(bundle, count, Field::Kind);
    lemma_written_lookup(bundle, count, Field::StoreId);
    lemma_written_lookup(bundle, count, Field::HomebrewId);
    lemma_written_lookup(bundle, count, Field::Exec);
    lemma_written_lookup(bundle, count, Field::EncryptedImage);
    lemma_written_lookup(bundle, count, Field::Version);
    lemma_written_lookup(bundle, count, Field::Background);
    lemma_written_lookup(bundle, count, Field::PreferXboxMode);
    lemma_written_lookup(bundle, count, Field::Launcher);
    lemma_written_lookup(bundle, count, Field::LauncherTags);
    lemma_written_lookup(bundle, count, Field::LauncherExec);
    lemma_kind_round_trip(bundle.bundle_type);
    lemma_bool_round_trip(true);
    lemma_list_round_trip::<String>(bundle.launcher_tags);
    lemma_parse_all_plain(segments(list_text::<String>(bundle.launcher_tags)));
    let back = assemble(body)->Ok_0;
    assert(back.background == bundle.background);
    assert(back.prefer_xbox_mode == bundle.prefer_xbox_mode);
    assert(back.launcher_tags =~= bundle.launcher_tags);
    assert(back == bundle);
}

/// Reading undoes writing: the lines of a manifest, read back, give the
/// manifest that was written. This holds of every record whose tags are
/// faithful: none holds a semicolon, and the last one is not empty.
pub proof fn law_round_trip(config: BundleConfigView)
    requires
        list_faithful::<String>(config.bundle.launcher_tags),
    ensures
        decode_document(as_read(document_lines(config))) == Ok::<BundleConfigView, DecodeErrorView>(
            config,
        ),
{
    let count = FIELD_COUNT as int;
    let fields = field_lines(config.bundle, count);
    let body = as_read(fields);
    let head: ReadLine = Ok(LineView::Section { name: section_name() });
    lemma_written_sound(config.bundle, count);
    lemma_written_record(config.bundle);
    assert forall|i: int| 0 <= i < body.len() implies !is_section(#[trigger] body[i]) by {
        assert(fields[i] is Value);
    }
    law_single_section(body);
    assert(as_read(document_lines(config)) =~= seq![head] + body);
}

/// The record of a bundle that is identified locally always comes back as it
/// was written, whatever was set: its builder cannot set tags.
pub proof fn law_round_trip_locally_identified(builder: HomebrewBundleConfigBuilder)
    ensures
        decode_document(as_read(document_lines(BundleConfigView { bundle: builder@ }))) == Ok::<
            BundleConfigView,
            DecodeErrorView,
        >(BundleConfigView { bundle: builder@ }),
{
    builder.lemma_locally_identified();
    law_round_trip(BundleConfigView { bundle: builder@ });
}

/// Whether every written value of a record is plain: it holds no line feed
/// and neither begins nor ends with white space.
pub open spec fn plain_record(bundle: BundleView) -> bool {
    forall|field: Field| #[trigger]
        field_text(bundle, field) matches Some(text) ==> plain_value(text)
}

/// Whether a manifest comes back from its bytes as it was written: its
/// written values are plain and its tags are faithful.
pub open spec fn comes_back(config: BundleConfigView) -> bool {
    plain_record(config.bundle) && list_faithful::<String>(config.bundle.launcher_tags)
}

/// The key of every field is plain, and so is the name of the section.
pub proof fn lemma_keys_plain(field: Field)
    ensures
        plain_key(key_text(field)),
        plain_section(section_name()),
{
    reveal_strlit("Bundle");
    reveal_strlit("Name");
    reveal_strlit("Type");
    reveal_strlit("StoreID");
    reveal_strlit("HomebrewID");
    reveal_strlit("Exec");
    reveal_strlit("EncryptedImage");
    reveal_strlit("Version");
    reveal_strlit("Background");
    reveal_strlit("PreferXBoxMode");
    reveal_strlit("Launcher");
    reveal_strlit("LauncherTags");
    reveal_strlit("LauncherExec");
}

/// The lines of a record whose written values are plain are plain.
pub proof fn lemma_written_plain(bundle: BundleView, count: int)
    requires
        0 <= count <= FIELD_COUNT,
        plain_record(bundle),
    ensures
        plain_lines(field_lines(bundle, count)),
    decreases count,
{
    if count > 0 {
        lemma_written_plain(bundle, count - 1);
        let last = field_at(count - 1);
        lemma_keys_plain(last);
        let before = field_lines(bundle, count - 1);
        let now = field_lines(bundle, count);
        assert forall|i: int| 0 <= i < now.len() implies plain_line(#[trigger] now[i]) by {
            if i < before.len() {
                assert(now[i] == before[i]);
            } else {
                assert(field_text(bundle, last) matches Some(text) && plain_value(text));
            }
        }
    }
}

/// The lines of a manifest whose written values are plain are plain.
pub proof fn lemma_document_plain(config: BundleConfigView)
    requires
        plain_record(config.bundle),
    ensures
        plain_lines(document_lines(config)),
{
    lemma_written_plain(config.bundle, FIELD_COUNT as int);
    lemma_keys_plain(Field::Name);
    let fields = field_lines(config.bundle, FIELD_COUNT as int);
    let lines = document_lines(config);
    assert forall|i: int| 0 <= i < lines.len() implies plain_line(#[trigger] lines[i]) by {
        if i >= 1 {
            assert(lines[i] == fields[i - 1]);
        }
    }
}

/// A field in its empty state is left out: where a field has no written
/// value, no line of the manifest has its key. So a flag that is down and an
/// empty list of tags are never written.
pub proof fn law_default_omission(config: BundleConfigView, field: Field, i: int)
    requires
        field_text(config.bundle, field) is None,
        0 <= i < document_lines(config).len(),
    ensures
        !writes_key(document_lines(config)[i], key_text(field)),
{
    let count = FIELD_COUNT as int;
    let fields = field_lines(config.bundle, count);
    lemma_field_places(field, 0);
    lemma_written_lookup(config.bundle, count, field);
    if i >= 1 {
        assert(document_lines(config)[i] == fields[i - 1]);
        lemma_lookup_none(as_read(fields), key_text(field), i - 1);
    }
}

/// A field that is not in its empty state is written, with its value; the
/// name and the kind always are.
pub proof fn law_written_fields(config: BundleConfigView, field: Field)
    ensures
        lookup(as_read(field_lines(config.bundle, FIELD_COUNT as int)), key_text(field))
            == field_text(config.bundle, field),
        field_text(config.bundle, Field::Name) is Some,
        field_text(config.bundle, Field::Kind) is Some,
{
    lemma_field_places(field, 0);
    lemma_written_lookup(config.bundle, FIELD_COUNT as int, field);
}

/// A section without the key `Name` is refused; where no line of it has a
/// fault, the error is that the name is missing.
pub proof fn law_name_required(body: Seq<ReadLine>)
    requires
        forall|i: int| 0 <= i < body.len() ==> !has_key(#[trigger] body[i], key_text(Field::Name)),
    ensures
        section_record(body) is Err,
        first_fault(body) is None ==> section_record(body) == Err::<BundleView, DecodeErrorView>(
            DecodeErrorView::MissingField { field: Field::Name },
        ),
{
    lemma_lookup_absent(body, key_text(Field::Name));
}

/// A section without the key `Type` is refused; where no line of it has a
/// fault and the name is there, the error is that the kind is missing.
pub proof fn law_kind_required(body: Seq<ReadLine>)
    requires
        forall|i: int| 0 <= i < body.len() ==> !has_key(#[trigger] body[i], key_text(Field::Kind)),
    ensures
        section_record(body) is Err,
        first_fault(body) is None && lookup(body, key_text(Field::Name)) is Some ==> section_record(
            body,
        ) == Err::<BundleView, DecodeErrorView>(DecodeErrorView::MissingField { field: Field::Kind }),
{
    lemma_lookup_absent(body, key_text(Field::Kind));
}

/// A section with a key that stands for no field is refused; where no line
/// before that one has a fault, the error is that the key is unknown.
pub proof fn law_unknown_key(body: Seq<ReadLine>, at: int, key: Seq<char>, value: Seq<char>)
    requires
        0 <= at < body.len(),
        body[at] == Ok::<LineView, Seq<char>>(LineView::Value { key, value }),
        field_of_key(key) is None,
    ensures
        section_record(body) is Err,
        (forall|j: int| 0 <= j < at ==> line_fault(#[trigger] body.take(j), body[j]) is None)
            ==> section_record(body) == Err::<BundleView, DecodeErrorView>(
            DecodeErrorView::UnknownField { key },
        ),
{
    lemma_fault_found(body, at, 0);
}

/// Where a section is read as a record, every line of it could be read, and
/// every key in it stands for a field.
pub proof fn law_accepted_lines(body: Seq<ReadLine>, at: int)
    requires
        section_record(body) is Ok,
        0 <= at < body.len(),
    ensures
        body[at] is Ok,
        body[at] matches Ok(LineView::Value { key, .. }) ==> field_of_key(key) is Some,
{
    if line_fault(body.take(at), body[at]) is Some {
        lemma_fault_found(body, at, 0);
    }
}

/// A manifest is read only from a `Bundle` section: where reading succeeds,
/// the text has such a section, its lines give the record, and they hold the
/// keys `Name` and `Type`.
pub proof fn law_record_from_section(lines: Seq<ReadLine>, config: BundleConfigView)
    requires
        decode_document(lines) == Ok::<BundleConfigView, DecodeErrorView>(config),
    ensures
        exists|start: int|
            {
                &&& 0 <= start < lines.len()
                &&& lines[start] == Ok::<LineView, Seq<char>>(
                    LineView::Section { name: section_name() },
                )
                &&& #[trigger] section_record(section_body(lines, start + 1)) == Ok::<
                    BundleView,
                    DecodeErrorView,
                >(config.bundle)
                &&& lookup(section_body(lines, start + 1), key_text(Field::Name)) is Some
                &&& lookup(section_body(lines, start + 1), key_text(Field::Kind)) is Some
            },
{
    lemma_scan_found(lines, 0, true, None, config);
}

/// A text whose `Bundle` sections all lack the name or the kind is refused.
pub proof fn law_document_requires_fields(lines: Seq<ReadLine>)
    requires
        forall|start: int|
            0 <= start < lines.len() && lines[start] == Ok::<LineView, Seq<char>>(
                LineView::Section { name: section_name() },
            ) ==> {
                ||| lookup(#[trigger] section_body(lines, start + 1), key_text(Field::Name)) is None
                ||| lookup(section_body(lines, start + 1), key_text(Field::Kind)) is None
            },
    ensures
        decode_document(lines) is Err,
{
    if decode_document(lines) is Ok {
        law_record_from_section(lines, decode_document(lines)->Ok_0);
    }
}

/// A text that is one `Bundle` section stands for what the section stands
/// for. So where the section has no fault and lacks the name, the error is
/// that the name is missing, and likewise for the kind and for an unknown key.
pub proof fn law_single_section(body: Seq<ReadLine>)
    requires
        forall|i: int| 0 <= i < body.len() ==> !is_section(#[trigger] body[i]),
    ensures
        decode_document(seq![Ok(LineView::Section { name: section_name() })] + body)
            == match section_record(body) {
            Ok(bundle) => Ok::<BundleConfigView, DecodeErrorView>(BundleConfigView { bundle }),
            Err(e) => Err::<BundleConfigView, DecodeErrorView>(e),
        },
{
    let head: ReadLine = Ok(LineView::Section { name: section_name() });
    let lines = seq![head] + body;
    assert(lines[0] == head);
    assert forall|i: int| 1 <= i < lines.len() implies !is_section(#[trigger] lines[i]) by {
        assert(lines[i] == body[i - 1]);
    }
    lemma_section_to_the_end(lines, 1);
    assert(section_body(lines, 1) =~= body);
    if section_record(body) is Ok {
        lemma_section_end_bounds(lines, 1);
        lemma_section_passed_over(lines, 1, 1, Some(section_record(body)->Ok_0));
    }
}

/// Where the rest of a text gives a manifest, either the record was found
/// already or a `Bundle` section in the rest gives it.
proof fn lemma_scan_found(
    lines: Seq<ReadLine>,
    at: int,
    preamble: bool,
    found: Option<BundleView>,
    config: BundleConfigView,
)
    requires
        0 <= at,
        scan(lines, at, preamble, found) == Ok::<BundleConfigView, DecodeErrorView>(config),
    ensures
        found == Some(config.bundle) || exists|start: int|
            {
                &&& at <= start < lines.len()
                &&& lines[start] == Ok::<LineView, Seq<char>>(
                    LineView::Section { name: section_name() },
                )
                &&& #[trigger] section_record(section_body(lines, start + 1)) == Ok::<
                    BundleView,
                    DecodeErrorView,
                >(config.bundle)
                &&& lookup(section_body(lines, start + 1), key_text(Field::Name)) is Some
                &&& lookup(section_body(lines, start + 1), key_text(Field::Kind)) is Some
            },
    decreases lines.len() - at,
{
    if at < lines.len() {
        match lines[at] {
            Err(_) => {},
            Ok(LineView::Section { name }) => {
                if name == section_name() {
                    let body = section_body(lines, at + 1);
                    let bundle = section_record(body)->Ok_0;
                    lemma_scan_found(lines, at + 1, false, Some(bundle), config);
                    if bundle == config.bundle {
                        assert(lines[at] == Ok::<LineView, Seq<char>>(
                            LineView::Section { name: section_name() },
                        ));
                        assert(section_record(section_body(lines, at + 1)) == Ok::<
                            BundleView,
                            DecodeErrorView,
                        >(config.bundle));
                    }
                } else {
                    lemma_scan_found(lines, at + 1, false, found, config);
                }
            },
            Ok(_) => {
                lemma_scan_found(lines, at + 1, preamble, found, config);
            },
        }
    }
}

} // verus!
