//! Record identifiers of the form `table:key`.

use vstd::prelude::*;
use vstd::string::*;
use surrealdb_types::{RecordId, ToSql};
use uuid::Uuid;
use crate::error::{AppError, AppResult};

verus! {

/// A reference to one record: the table it lives in and its key there.
#[derive(Debug)]
pub struct Thing {
    pub table: String,
    pub key: String,
}

/// The mathematical value of a [`Thing`].
pub ghost struct ThingView {
    pub table: Seq<char>,
    pub key: Seq<char>,
}

impl View for Thing {
    type V = ThingView;

    open spec fn view(&self) -> ThingView {
        ThingView { table: self.table@, key: self.key@ }
    }
}

/// The text that the record `table:key` is written as, with whatever
/// quoting its parts need.
pub uninterp spec fn record_sql(table: Seq<char>, key: Seq<char>) -> Seq<char>;

/// `RecordId::new` with a string key, then `ToSql::to_sql`: the text is a
/// function of table and key alone.
#[verifier::external_body]
fn record_to_sql(table: &str, key: &str) -> (text: String)
    ensures
        text@ == record_sql(table@, key@),
{
    RecordId::new(table, key).to_sql()
}

/// `Uuid::new_v4`, written in its simple form of 32 hexadecimal digits:
/// drawn at random, so nothing is promised of it.
#[verifier::external_body]
fn random_digits() -> (digits: String) {
    Uuid::new_v4().simple().to_string()
}

/// A key for a new record: the letter `k` and digits drawn at random. It
/// begins with a letter so that it is written without quotes.
pub(crate) fn fresh_key() -> (key: String)
    ensures
        key@.len() > 0,
        key@[0] == 'k',
{
    let digits = random_digits();
    proof {
        reveal_strlit("k");
    }
    String::from_str("k").concat(digits.as_str())
}

impl ThingView {
    /// The text that this record is written as, with whatever quoting its
    /// parts need.
    pub open spec fn sql(self) -> Seq<char> {
        record_sql(self.table, self.key)
    }

    /// The identifier of this record as it stands: table, colon, key.
    pub open spec fn text(self) -> Seq<char> {
        self.table + seq![':'] + self.key
    }

    /// Whether the table holds no colon, so that the identifier is read
    /// back as this record.
    pub open spec fn plain(self) -> bool {
        !self.table.contains(':')
    }
}

impl Thing {
    /// The text that this record is written as.
    pub fn to_sql(&self) -> (text: String)
        ensures
            text@ == self@.sql(),
    {
        record_to_sql(self.table.as_str(), self.key.as_str())
    }

    /// The identifier of this record as it stands: table, colon, key.
    pub fn text(&self) -> (text: String)
        ensures
            text@ == self@.text(),
    {
        proof {
            reveal_strlit(":");
            assert(":"@ =~= seq![':']);
        }
        self.table.clone().concat(":").concat(self.key.as_str())
    }

    /// Whether `self` and `other` name the same record.
    pub fn same(&self, other: &Thing) -> (b: bool)
        ensures
            b == (self@ == other@),
    {
        self.table == other.table && self.key == other.key
    }

    /// A copy of `self`.
    pub fn duplicate(&self) -> (copy: Thing)
        ensures
            copy@ == self@,
    {
        Thing { table: self.table.clone(), key: self.key.clone() }
    }
}

/// Whether `text` has the shape `table:key`, i.e. holds a colon.
pub open spec fn is_record_text(text: Seq<char>) -> bool {
    text.contains(':')
}

/// Whether `text` splits at its first colon into `table` and `key`.
pub open spec fn splits_into(text: Seq<char>, table: Seq<char>, key: Seq<char>) -> bool {
    &&& text == table + seq![':'] + key
    &&& !table.contains(':')
}

/// The record that `text` names: what stands before its first colon is the
/// table, what stands after it the key. Meaningful where `text` holds a
/// colon.
pub open spec fn thing_of(text: Seq<char>) -> ThingView {
    choose|thing: ThingView| splits_into(text, thing.table, thing.key)
}

/// Splits `id` at its first colon into table and key.
pub fn parse_thing_to_record(id: &str) -> (r: AppResult<(String, String)>)
    ensures
        r is Ok <==> is_record_text(id@),
        r matches Ok(pair) ==> splits_into(id@, pair.0@, pair.1@),
        r matches Err(e) ==> e == AppError::InvalidId,
{
    let n = id.unicode_len();
    let mut i: usize = 0;
    while i < n
        invariant
            n == id@.len(),
            i <= n,
            forall|j: int| 0 <= j < i ==> id@[j] != ':',
        decreases n - i,
    {
        if id.get_char(i) == ':' {
            let table = id.substring_char(0, i);
            let key = id.substring_char(i + 1, n);
            assert(id@ =~= table@ + seq![':'] + key@);
            return Ok((String::from_str(table), String::from_str(key)));
        }
        i += 1;
    }
    Err(AppError::InvalidId)
}

/// Reads `id` as a record reference: the table before its first colon, the
/// key after it.
pub fn parse_thing(id: &str) -> (r: AppResult<Thing>)
    ensures
        r is Ok <==> is_record_text(id@),
        r matches Ok(thing) ==> splits_into(id@, thing@.table, thing@.key) && thing@ == thing_of(id@),
        r matches Err(e) ==> e == AppError::InvalidId,
{
    match parse_thing_to_record(id) {
        Ok((table, key)) => {
            let thing = Thing { table, key };
            proof {
                let chosen = thing_of(id@);
                assert(splits_into(id@, thing@.table, thing@.key));
                lemma_split_unique(id@, thing@.table, thing@.key, chosen.table, chosen.key);
            }
            Ok(thing)
        },
        Err(e) => Err(e),
    }
}

/// A text splits at its first colon in one way only.
pub proof fn lemma_split_unique(
    text: Seq<char>,
    table: Seq<char>,
    key: Seq<char>,
    table2: Seq<char>,
    key2: Seq<char>,
)
    requires
        splits_into(text, table, key),
        splits_into(text, table2, key2),
    ensures
        table == table2,
        key == key2,
{
    let a = table.len() as int;
    let b = table2.len() as int;
    assert(text[a] == ':');
    assert(text[b] == ':');
    if a < b {
        assert(table2[a] == text[a]);
        assert(table2.contains(':'));
    }
    if b < a {
        assert(table[b] == text[b]);
        assert(table.contains(':'));
    }
    assert(table =~= text.subrange(0, a));
    assert(table2 =~= text.subrange(0, b));
    assert(key =~= text.subrange(a + 1, text.len() as int));
    assert(key2 =~= text.subrange(b + 1, text.len() as int));
}

/// A record identifier is read as the record that is written as it: the
/// record that a text with a colon names has no colon in its table and is
/// written as that text.
pub proof fn lemma_thing_of_text(text: Seq<char>)
    requires
        is_record_text(text),
    ensures
        thing_of(text).plain(),
        thing_of(text).text() == text,
{
    let at = choose|i: int| 0 <= i < text.len() && text[i] == ':';
    lemma_first_colon(text, at);
}

/// A text that holds a colon splits at its first colon.
proof fn lemma_first_colon(text: Seq<char>, at: int)
    requires
        0 <= at < text.len(),
        text[at] == ':',
    ensures
        exists|thing: ThingView| splits_into(text, thing.table, thing.key),
    decreases at,
{
    if exists|i: int| 0 <= i < at && text[i] == ':' {
        let i = choose|i: int| 0 <= i < at && text[i] == ':';
        lemma_first_colon(text, i);
    } else {
        let thing = ThingView { table: text.take(at), key: text.skip(at + 1) };
        assert(text =~= thing.table + seq![':'] + thing.key);
        assert(!thing.table.contains(':'));
        assert(splits_into(text, thing.table, thing.key));
    }
}

/// Records without a colon in their tables that are written as the same
/// identifier are the same record.
pub proof fn lemma_text_tells_thing(a: ThingView, b: ThingView)
    requires
        a.plain(),
        b.plain(),
        a.text() == b.text(),
    ensures
        a == b,
{
    lemma_split_unique(a.text(), a.table, a.key, b.table, b.key);
}

} // verus!
