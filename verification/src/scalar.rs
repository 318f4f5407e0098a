//! The text forms of single values: booleans written `true` and `false`,
//! plain texts, and lists written as one text with semicolons between the elements.

use crate::error::{DecodeError, DecodeErrorView, ValueError, ValueErrorView};
use crate::text::{free_of, join, join_texts, lemma_split_join, lemma_split_nonempty, split, split_text, views};
use vstd::prelude::*;
use vstd::string::StringExecFns;

verus! {

/// A type whose values have a text form.
pub trait TextValue: Sized + View {
    /// The value that a text stands for, or why it stands for none.
    spec fn parse_spec(text: Seq<char>) -> Result<Self::V, ValueErrorView>;

    /// The text that stands for a value.
    spec fn text_spec(value: Self::V) -> Seq<char>;

    /// Reads a value from its text form.
    fn from_text(text: &str) -> (r: Result<Self, ValueError>)
        ensures
            match r {
                Ok(value) => Self::parse_spec(text@) == Ok::<Self::V, ValueErrorView>(value@),
                Err(e) => Self::parse_spec(text@) == Err::<Self::V, ValueErrorView>(e@),
            },
    ;

    /// Writes a value in its text form.
    fn to_text(&self) -> (text: String)
        ensures
            text@ == Self::text_spec(self@),
    ;

    /// The text of a value stands for that value.
    proof fn lemma_round_trip(value: Self::V)
        ensures
            Self::parse_spec(Self::text_spec(value)) == Ok::<Self::V, ValueErrorView>(value),
    ;
}

/// The text of a boolean.
pub open spec fn bool_text(value: bool) -> Seq<char> {
    if value {
        "true"@
    } else {
        "false"@
    }
}

/// The boolean that a text stands for: `true` and `false` and nothing else,
/// letter case included.
pub open spec fn parse_bool(text: Seq<char>) -> Result<bool, ValueErrorView> {
    if text == "true"@ {
        Ok(true)
    } else if text == "false"@ {
        Ok(false)
    } else {
        Err(ValueErrorView::InvalidBoolean { text })
    }
}

/// The text of a boolean stands for that boolean.
pub proof fn lemma_bool_round_trip(value: bool)
    ensures
        parse_bool(bool_text(value)) == Ok::<bool, ValueErrorView>(value),
{
    reveal_strlit("true");
    reveal_strlit("false");
    assert("true"@.len() == 4);
    assert("false"@.len() == 5);
}

/// Whether a flag is down. A flag that is down is left out of the written record.
pub fn is_false(b: &bool) -> (r: bool)
    ensures
        r == !*b,
{
    !*b
}

/// Writes a boolean as `true` or `false`.
pub fn ser_keyfile_bool(value: &bool) -> (text: String)
    ensures
        text@ == bool_text(*value),
{
    String::from_str(
        if *value {
            "true"
        } else {
            "false"
        },
    )
}

/// Reads a boolean: `true` and `false` are accepted, every other text is
/// refused as an invalid boolean, and the error holds the text.
pub fn de_keyfile_bool(text: &str) -> (r: Result<bool, ValueError>)
    ensures
        match r {
            Ok(value) => parse_bool(text@) == Ok::<bool, ValueErrorView>(value),
            Err(e) => parse_bool(text@) == Err::<bool, ValueErrorView>(e@),
        },
{
    if text.eq("true") {
        Ok(true)
    } else if text.eq("false") {
        Ok(false)
    } else {
        Err(ValueError::InvalidBoolean { text: String::from_str(text) })
    }
}

impl TextValue for bool {
    open spec fn parse_spec(text: Seq<char>) -> Result<bool, ValueErrorView> {
        parse_bool(text)
    }

    open spec fn text_spec(value: bool) -> Seq<char> {
        bool_text(value)
    }

    fn from_text(text: &str) -> (r: Result<bool, ValueError>) {
        de_keyfile_bool(text)
    }

    fn to_text(&self) -> (text: String) {
        ser_keyfile_bool(self)
    }

    proof fn lemma_round_trip(value: bool) {
        lemma_bool_round_trip(value);
    }
}

impl TextValue for String {
    /// Every text stands for itself.
    open spec fn parse_spec(text: Seq<char>) -> Result<Seq<char>, ValueErrorView> {
        Ok(text)
    }

    open spec fn text_spec(value: Seq<char>) -> Seq<char> {
        value
    }

    fn from_text(text: &str) -> (r: Result<String, ValueError>) {
        Ok(String::from_str(text))
    }

    fn to_text(&self) -> (text: String) {
        self.clone()
    }

    proof fn lemma_round_trip(value: Seq<char>) {
    }
}

/// The elements of a list as they are written: the pieces between the
/// semicolons, without the last piece where that one is empty. So one
/// semicolon after the last element changes nothing, and an empty text is
/// the empty list; an empty piece anywhere else is an element.
pub open spec fn segments(text: Seq<char>) -> Seq<Seq<char>> {
    let pieces = split(text, ';');
    if pieces.last().len() == 0 {
        pieces.drop_last()
    } else {
        pieces
    }
}

/// The values that the written elements stand for, or the first element that
/// stands for none, with its place.
pub open spec fn parse_all<T: TextValue>(written: Seq<Seq<char>>) -> Result<
    Seq<T::V>,
    DecodeErrorView,
>
    decreases written.len(),
{
    if written.len() == 0 {
        Ok(Seq::empty())
    } else {
        match parse_all::<T>(written.drop_last()) {
            Err(e) => Err(e),
            Ok(values) => match T::parse_spec(written.last()) {
                Ok(value) => Ok(values.push(value)),
                Err(cause) => Err(
                    DecodeErrorView::InvalidListElement { index: written.len() - 1, cause },
                ),
            },
        }
    }
}

/// The list that a text stands for.
pub open spec fn parse_list<T: TextValue>(text: Seq<char>) -> Result<Seq<T::V>, DecodeErrorView> {
    parse_all::<T>(segments(text))
}

/// The texts of the values of a list, in order.
pub open spec fn element_texts<T: TextValue>(values: Seq<T::V>) -> Seq<Seq<char>> {
    Seq::new(values.len(), |i: int| T::text_spec(values[i]))
}

/// The text of a list: the texts of its elements with one semicolon between each two.
pub open spec fn list_text<T: TextValue>(values: Seq<T::V>) -> Seq<char> {
    join(element_texts::<T>(values), ';')
}

/// Whether a list comes back from its text as it was: no element's text holds
/// a semicolon, and the last element's text is not empty.
pub open spec fn list_faithful<T: TextValue>(values: Seq<T::V>) -> bool {
    &&& forall|i: int| 0 <= i < values.len() ==> free_of(#[trigger] T::text_spec(values[i]), ';')
    &&& values.len() > 0 ==> T::text_spec(values.last()).len() > 0
}

/// The texts of values stand for those values, element by element.
pub proof fn lemma_parse_all_texts<T: TextValue>(values: Seq<T::V>)
    ensures
        parse_all::<T>(element_texts::<T>(values)) == Ok::<Seq<T::V>, DecodeErrorView>(values),
    decreases values.len(),
{
    let written = element_texts::<T>(values);
    if values.len() == 0 {
        assert(values =~= Seq::empty());
    } else {
        lemma_parse_all_texts::<T>(values.drop_last());
        assert(written.drop_last() =~= element_texts::<T>(values.drop_last()));
        T::lemma_round_trip(values.last());
        assert(values.drop_last().push(values.last()) =~= values);
    }
}

/// Reading undoes writing, for every list that is faithful.
pub proof fn lemma_list_round_trip<T: TextValue>(values: Seq<T::V>)
    requires
        list_faithful::<T>(values),
    ensures
        parse_list::<T>(list_text::<T>(values)) == Ok::<Seq<T::V>, DecodeErrorView>(values),
{
    let written = element_texts::<T>(values);
    lemma_parse_all_texts::<T>(values);
    if values.len() == 0 {
        assert(split(Seq::<char>::empty(), ';') =~= seq![Seq::<char>::empty()]);
        assert(segments(list_text::<T>(values)) =~= written);
    } else {
        assert forall|i: int| 0 <= i < written.len() implies free_of(#[trigger] written[i], ';') by {
            assert(free_of(T::text_spec(values[i]), ';'));
        }
        lemma_split_join(written, ';');
    }
}

/// One semicolon after the last element changes nothing: a text that does not
/// end in a semicolon, and is not empty, has the same elements with one added.
pub proof fn lemma_trailing_separator(text: Seq<char>)
    requires
        text.len() > 0,
        text.last() != ';',
    ensures
        segments(text.push(';')) == segments(text),
{
    lemma_split_nonempty(text, ';');
    lemma_split_nonempty(text.drop_last(), ';');
    assert(text.push(';').drop_last() =~= text);
    assert(split(text, ';').push(Seq::empty()).drop_last() =~= split(text, ';'));
}

/// Writes a list as one text, its elements in order with a semicolon between each two.
pub fn ser_keyfile_list<T: TextValue>(values: &Vec<T>) -> (text: String)
    ensures
        text@ == list_text::<T>(views(values@)),
{
    let mut written: Vec<String> = Vec::new();
    let mut i: usize = 0;
    while i < values.len()
        invariant
            i <= values.len(),
            views(written@) == element_texts::<T>(views(values@)).take(i as int),
        decreases values.len() - i,
    {
        let ghost before = views(written@);
        let element = values[i].to_text();
        written.push(element);
        proof {
            assert(views(written@) =~= before.push(element@));
            assert(views(written@) =~= element_texts::<T>(views(values@)).take(i + 1));
        }
        i = i + 1;
    }
    proof {
        assert(views(written@) =~= element_texts::<T>(views(values@)));
    }
    join_texts(written, ';')
}

/// Reads a list: the text is cut at the semicolons, an empty last piece is
/// dropped, and each remaining piece is read as one element. The first element
/// that is refused fails the whole list, and the error holds its place and the reason.
pub fn de_keyfile_list<T: TextValue>(text: &str) -> (r: Result<Vec<T>, DecodeError>)
    ensures
        match r {
            Ok(values) => parse_list::<T>(text@) == Ok::<Seq<T::V>, DecodeErrorView>(
                views(values@),
            ),
            Err(e) => parse_list::<T>(text@) == Err::<Seq<T::V>, DecodeErrorView>(e@),
        },
{
    let mut pieces = split_text(text, ';');
    proof {
        lemma_split_nonempty(text@, ';');
    }
    let last = pieces.len() - 1;
    if pieces[last].as_str().is_empty() {
        let ghost before = views(pieces@);
        pieces.pop();
        proof {
            assert(views(pieces@) =~= before.drop_last());
        }
    }
    let ghost written = segments(text@);
    let mut values: Vec<T> = Vec::new();
    let mut i: usize = 0;
    proof {
        assert(written.take(0) =~= Seq::empty());
        assert(views(values@) =~= Seq::empty());
    }
    while i < pieces.len()
        invariant
            i <= pieces.len(),
            written == segments(text@),
            views(pieces@) == written,
            parse_all::<T>(written.take(i as int)) == Ok::<Seq<T::V>, DecodeErrorView>(
                views(values@),
            ),
        decreases pieces.len() - i,
    {
        let ghost before = views(values@);
        proof {
            assert(written.take(i + 1).drop_last() =~= written.take(i as int));
            assert(written.take(i + 1).last() == pieces@[i as int]@);
        }
        match T::from_text(pieces[i].as_str()) {
            Ok(value) => {
                values.push(value);
                proof {
                    assert(views(values@) =~= before.push(value@));
                }
            },
            Err(cause) => {
                proof {
                    assert(parse_all::<T>(written.take(i + 1)) == Err::<Seq<T::V>, DecodeErrorView>(
                        DecodeErrorView::InvalidListElement { index: i as int, cause: cause@ },
                    ));
                    lemma_parse_all_stops::<T>(written, i + 1);
                }
                return Err(DecodeError::InvalidListElement { index: i, cause });
            },
        }
        i = i + 1;
    }
    proof {
        assert(written.take(i as int) =~= written);
    }
    Ok(values)
}

/// Once an element is refused, what follows it changes nothing.
pub proof fn lemma_parse_all_stops<T: TextValue>(written: Seq<Seq<char>>, n: int)
    requires
        0 <= n <= written.len(),
        parse_all::<T>(written.take(n)) is Err,
    ensures
        parse_all::<T>(written) == parse_all::<T>(written.take(n)),
    decreases written.len() - n,
{
    if n == written.len() {
        assert(written.take(n) =~= written);
    } else {
        assert(written.take(n + 1).drop_last() =~= written.take(n));
        lemma_parse_all_stops::<T>(written, n + 1);
    }
}

} // verus!
