//! JSON values as the commands read and write them.
use vstd::prelude::*;

use crate::text;

verus! {

/// A JSON number. One that is no integer of 64 bits is kept as it was written.
#[derive(Debug, PartialEq, Eq)]
pub enum Number {
    Integer(i64),
    /// Above the largest `i64`.
    Unsigned(u64),
    Other(String),
}

/// A JSON value. The members of an object are listed in order.
#[derive(Debug, PartialEq, Eq)]
pub enum Json {
    Null,
    Bool(bool),
    Number(Number),
    Text(String),
    Array(Vec<Json>),
    Object(Vec<(String, Json)>),
}

pub enum NumberView {
    Integer(int),
    Other(Seq<char>),
}

/// What a JSON value is, whatever holds it.
pub enum JsonView {
    Null,
    Bool(bool),
    Number(NumberView),
    Text(Seq<char>),
    Array(Seq<JsonView>),
    Object(Seq<(Seq<char>, JsonView)>),
}

pub open spec fn number_view(n: Number) -> NumberView {
    match n {
        Number::Integer(i) => NumberView::Integer(i as int),
        Number::Unsigned(u) => NumberView::Integer(u as int),
        Number::Other(s) => NumberView::Other(s@),
    }
}

pub open spec fn json_view(j: Json) -> JsonView
    decreases j,
{
    match j {
        Json::Null => JsonView::Null,
        Json::Bool(b) => JsonView::Bool(b),
        Json::Number(n) => JsonView::Number(number_view(n)),
        Json::Text(s) => JsonView::Text(s@),
        Json::Array(v) => JsonView::Array(
            Seq::new(
                v@.len(),
                |i: int|
                    if 0 <= i < v@.len() {
                        json_view(v@[i])
                    } else {
                        JsonView::Null
                    },
            ),
        ),
        Json::Object(v) => JsonView::Object(
            Seq::new(
                v@.len(),
                |i: int|
                    if 0 <= i < v@.len() {
                        (v@[i].0@, json_view(v@[i].1))
                    } else {
                        (Seq::empty(), JsonView::Null)
                    },
            ),
        ),
    }
}

impl View for Json {
    type V = JsonView;

    open spec fn view(&self) -> JsonView {
        json_view(*self)
    }
}

/// What a list of values holds.
pub open spec fn values(v: Seq<Json>) -> Seq<JsonView> {
    Seq::new(v.len(), |i: int| v[i]@)
}

/// What the members of an object hold.
pub open spec fn members(v: Seq<(String, Json)>) -> Seq<(Seq<char>, JsonView)> {
    Seq::new(v.len(), |i: int| (v[i].0@, v[i].1@))
}

/// The array of some texts.
pub open spec fn text_array(all: Seq<Seq<char>>) -> JsonView {
    JsonView::Array(Seq::new(all.len(), |i: int| JsonView::Text(all[i])))
}

/// A whole number.
pub open spec fn whole(n: int) -> JsonView {
    JsonView::Number(NumberView::Integer(n))
}

/// The value of the first member of that name.
pub open spec fn member(entries: Seq<(Seq<char>, JsonView)>, key: Seq<char>) -> Option<JsonView>
    decreases entries.len(),
{
    if entries.len() == 0 {
        None
    } else if entries[0].0 == key {
        Some(entries[0].1)
    } else {
        member(entries.drop_first(), key)
    }
}

/// The member of an object; nothing of any other value.
pub open spec fn field(v: JsonView, key: Seq<char>) -> Option<JsonView> {
    match v {
        JsonView::Object(entries) => member(entries, key),
        _ => None,
    }
}

pub open spec fn text_of(v: Option<JsonView>) -> Option<Seq<char>> {
    match v {
        Some(JsonView::Text(s)) => Some(s),
        _ => None,
    }
}

pub open spec fn items_of(v: Option<JsonView>) -> Option<Seq<JsonView>> {
    match v {
        Some(JsonView::Array(s)) => Some(s),
        _ => None,
    }
}

/// An integer that 64 bits with sign hold.
pub open spec fn integer_of(v: Option<JsonView>) -> Option<int> {
    match v {
        Some(JsonView::Number(NumberView::Integer(i))) => if i64::MIN <= i <= i64::MAX {
            Some(i)
        } else {
            None
        },
        _ => None,
    }
}

pub open spec fn field_text(v: JsonView, key: Seq<char>) -> Option<Seq<char>> {
    text_of(field(v, key))
}

pub open spec fn field_items(v: JsonView, key: Seq<char>) -> Option<Seq<JsonView>> {
    items_of(field(v, key))
}

pub open spec fn field_integer(v: JsonView, key: Seq<char>) -> Option<int> {
    integer_of(field(v, key))
}

/// An optional value, by its view.
pub open spec fn opt_json(v: Option<&Json>) -> Option<JsonView> {
    match v {
        Some(j) => Some(j@),
        None => None,
    }
}

/// An optional integer, without its width.
pub open spec fn opt_int(v: Option<i64>) -> Option<int> {
    match v {
        Some(i) => Some(i as int),
        None => None,
    }
}

/// The members with one set: in its place where the name is there, else at the
/// end.
pub open spec fn with_member(
    entries: Seq<(Seq<char>, JsonView)>,
    key: Seq<char>,
    value: JsonView,
) -> Seq<(Seq<char>, JsonView)>
    decreases entries.len(),
{
    if entries.len() == 0 {
        seq![(key, value)]
    } else if entries[0].0 == key {
        seq![(key, value)] + entries.drop_first()
    } else {
        seq![entries[0]] + with_member(entries.drop_first(), key, value)
    }
}

proof fn with_member_at(
    entries: Seq<(Seq<char>, JsonView)>,
    key: Seq<char>,
    value: JsonView,
    at: int,
)
    requires
        0 <= at <= entries.len(),
        forall|i: int| 0 <= i < at ==> (#[trigger] entries[i]).0 != key,
        at < entries.len() ==> entries[at].0 == key,
    ensures
        at < entries.len() ==> with_member(entries, key, value) == entries.update(at, (key, value)),
        at == entries.len() ==> with_member(entries, key, value) == entries.push((key, value)),
    decreases entries.len(),
{
    if entries.len() == 0 {
        assert(with_member(entries, key, value) =~= entries.push((key, value)));
    } else if at == 0 {
        assert(with_member(entries, key, value) =~= entries.update(0, (key, value)));
    } else {
        let t = entries.drop_first();
        assert forall|i: int| 0 <= i < at - 1 implies (#[trigger] t[i]).0 != key by {
            assert(t[i] == entries[i + 1]);
        }
        with_member_at(t, key, value, at - 1);
        if at < entries.len() {
            assert(with_member(entries, key, value) =~= entries.update(at, (key, value)));
        } else {
            assert(with_member(entries, key, value) =~= entries.push((key, value)));
        }
    }
}

/// The member that was set reads back, and every other member stays.
pub proof fn with_member_reads_back(
    entries: Seq<(Seq<char>, JsonView)>,
    key: Seq<char>,
    value: JsonView,
    other: Seq<char>,
)
    ensures
        member(with_member(entries, key, value), key) == Some(value),
        other != key ==> member(with_member(entries, key, value), other) == member(entries, other),
    decreases entries.len(),
{
    let r = with_member(entries, key, value);
    if entries.len() == 0 {
        assert(member(Seq::<(Seq<char>, JsonView)>::empty(), other) is None);
        assert(r.drop_first() =~= Seq::<(Seq<char>, JsonView)>::empty());
    } else if entries[0].0 == key {
        assert(r.drop_first() =~= entries.drop_first());
    } else {
        with_member_reads_back(entries.drop_first(), key, value, other);
        assert(r.drop_first() =~= with_member(entries.drop_first(), key, value));
    }
}

impl Json {
    pub fn get(&self, key: &str) -> (r: Option<&Json>)
        ensures
            opt_json(r) == field(self@, key@),
    {
        match self {
            Json::Object(entries) => {
                let ghost all = members(entries@);
                assert(self@ == JsonView::Object(all)) by {
                    assert(self@->Object_0 =~= all);
                }
                let mut i: usize = 0;
                assert(all.skip(0) =~= all);
                while i < entries.len()
                    invariant
                        i <= entries.len(),
                        all == members(entries@),
                        self@ == JsonView::Object(all),
                        member(all, key@) == member(all.skip(i as int), key@),
                    decreases entries.len() - i,
                {
                    assert(all.skip(i as int)[0] == (entries@[i as int].0@, entries@[i as int].1@));
                    if text::same(entries[i].0.as_str(), key) {
                        return Some(&entries[i].1);
                    }
                    assert(all.skip(i as int).drop_first() =~= all.skip(i as int + 1));
                    i = i + 1;
                }
                None
            },
            _ => None,
        }
    }

    pub fn as_str(&self) -> (r: Option<&str>)
        ensures
            text::opt_ref(r) == text_of(Some(self@)),
    {
        match self {
            Json::Text(s) => Some(s.as_str()),
            _ => None,
        }
    }

    pub fn as_i64(&self) -> (r: Option<i64>)
        ensures
            opt_int(r) == integer_of(Some(self@)),
    {
        match self {
            Json::Number(Number::Integer(i)) => Some(*i),
            Json::Number(Number::Unsigned(u)) => if *u <= 0x7fff_ffff_ffff_ffff {
                Some(*u as i64)
            } else {
                None
            },
            _ => None,
        }
    }

    pub fn as_array(&self) -> (r: Option<&Vec<Json>>)
        ensures
            match r {
                Some(v) => items_of(Some(self@)) == Some(values(v@)),
                None => items_of(Some(self@)) is None,
            },
    {
        match self {
            Json::Array(v) => {
                assert(self@->Array_0 =~= values(v@));
                Some(v)
            },
            _ => None,
        }
    }

    pub fn is_object(&self) -> (r: bool)
        ensures
            r == (self@ is Object),
    {
        matches!(self, Json::Object(_))
    }

    /// The text of a member.
    pub fn get_str(&self, key: &str) -> (r: Option<&str>)
        ensures
            text::opt_ref(r) == field_text(self@, key@),
    {
        match self.get(key) {
            Some(v) => v.as_str(),
            None => None,
        }
    }

    /// The integer of a member.
    pub fn get_i64(&self, key: &str) -> (r: Option<i64>)
        ensures
            opt_int(r) == field_integer(self@, key@),
    {
        match self.get(key) {
            Some(v) => v.as_i64(),
            None => None,
        }
    }

    /// The items of a member.
    pub fn get_array(&self, key: &str) -> (r: Option<&Vec<Json>>)
        ensures
            match r {
                Some(v) => field_items(self@, key@) == Some(values(v@)),
                None => field_items(self@, key@) is None,
            },
    {
        match self.get(key) {
            Some(v) => v.as_array(),
            None => None,
        }
    }

    /// An object without members.
    pub fn object() -> (r: Json)
        ensures
            r@ == JsonView::Object(Seq::empty()),
    {
        let r = Json::Object(Vec::new());
        assert(r@->Object_0 =~= Seq::<(Seq<char>, JsonView)>::empty());
        r
    }

    /// A whole number that is not negative.
    pub fn count(n: u64) -> (r: Json)
        ensures
            r@ == whole(n as int),
    {
        if n <= i64::MAX as u64 {
            Json::Number(Number::Integer(n as i64))
        } else {
            Json::Number(Number::Unsigned(n))
        }
    }

    /// The array of some texts.
    pub fn texts(all: &Vec<String>) -> (r: Json)
        ensures
            r@ == text_array(text::texts(all@)),
    {
        let mut out: Vec<Json> = Vec::new();
        let mut i: usize = 0;
        while i < all.len()
            invariant
                i <= all.len(),
                values(out@) == text_array(text::texts(all@))->Array_0.take(i as int),
            decreases all.len() - i,
        {
            let ghost before = values(out@);
            let ghost whole = text_array(text::texts(all@))->Array_0;
            out.push(Json::Text(all[i].clone()));
            assert(values(out@) =~= before.push(JsonView::Text(all@[i as int]@)));
            assert(values(out@) =~= whole.take(i as int + 1));
            i = i + 1;
        }
        let r = Json::Array(out);
        assert(r@->Array_0 =~= values(out@));
        assert(r@->Array_0 =~= text_array(text::texts(all@))->Array_0);
        r
    }

    /// The value with a member set; a value that is no object stays as it is.
    pub fn with(self, key: &str, value: Json) -> (r: Json)
        ensures
            r@ == (match self@ {
                JsonView::Object(entries) => JsonView::Object(
                    with_member(entries, key@, value@),
                ),
                other => other,
            }),
    {
        match self {
            Json::Object(entries) => {
                let ghost all = members(entries@);
                let ghost set = value@;
                assert(self@->Object_0 =~= all);
                let mut entries = entries;
                let mut at: usize = 0;
                while at < entries.len() && !text::same(entries[at].0.as_str(), key)
                    invariant
                        at <= entries.len(),
                        all == members(entries@),
                        forall|i: int| 0 <= i < at ==> (#[trigger] all[i]).0 != key@,
                    decreases entries.len() - at,
                {
                    assert(all[at as int].0 == entries@[at as int].0@);
                    at = at + 1;
                }
                proof {
                    with_member_at(all, key@, set, at as int);
                }
                if at < entries.len() {
                    entries[at] = (key.to_string(), value);
                } else {
                    entries.push((key.to_string(), value));
                }
                let r = Json::Object(entries);
                assert(r@->Object_0 =~= with_member(all, key@, set));
                r
            },
            other => other,
        }
    }

    /// The value with a text member set.
    pub fn with_text(self, key: &str, value: &str) -> (r: Json)
        ensures
            r@ == (match self@ {
                JsonView::Object(entries) => JsonView::Object(
                    with_member(entries, key@, JsonView::Text(value@)),
                ),
                other => other,
            }),
    {
        self.with(key, Json::Text(value.to_string()))
    }
}

/// A value as `serde_json` holds it: carried through unread, and printed.
#[verifier::external_type_specification]
#[verifier::external_body]
pub struct ExternalValue(serde_json::Value);

/// What a `serde_json::Value` holds, as the text that its `Display` gives: JSON
/// without any space between its parts.
pub uninterp spec fn json_text(value: serde_json::Value) -> Seq<char>;

/// What each of some values holds.
pub open spec fn json_texts(values: Seq<serde_json::Value>) -> Seq<Seq<char>> {
    Seq::new(values.len(), |i: int| json_text(values[i]))
}

/// What the value holds that `serde_json::from_str` reads from a text, or the wording
/// of the error.
pub uninterp spec fn read_text(text: Seq<char>) -> Result<Seq<char>, Seq<char>>;

/// Wrapper of `serde_json::from_str` to a `serde_json::Value`. What comes back is a
/// function of the text; which texts are JSON is left to the name.
#[verifier::external_body]
pub(crate) fn read_value(text: &str) -> (r: Result<serde_json::Value, String>)
    ensures
        match r {
            Ok(value) => read_text(text@) == Ok::<Seq<char>, Seq<char>>(json_text(value)),
            Err(e) => read_text(text@) == Err::<Seq<char>, Seq<char>>(e@),
        },
{
    serde_json::from_str(text).map_err(|e| e.to_string())
}

/// The indented form that `serde_json::to_string_pretty` gives a value, from what the
/// value holds, or the wording of the error.
pub uninterp spec fn indented_json(text: Seq<char>) -> Result<Seq<char>, Seq<char>>;

/// Wrapper of `serde_json::to_string_pretty` on a `serde_json::Value`. The indented
/// form follows from the compact one, which differs from it in space alone; how it is
/// indented is left to the name.
#[verifier::external_body]
pub(crate) fn indent_json(value: &serde_json::Value) -> (r: Result<String, String>)
    ensures
        match r {
            Ok(s) => indented_json(json_text(*value)) == Ok::<Seq<char>, Seq<char>>(s@),
            Err(e) => indented_json(json_text(*value)) == Err::<Seq<char>, Seq<char>>(e@),
        },
{
    serde_json::to_string_pretty(value).map_err(|e| e.to_string())
}

/// Wrapper of `serde_json::Value::from` on a slice of values: the array of them, whose
/// text is theirs between brackets, parted by commas.
#[verifier::external_body]
pub(crate) fn array_value(items: &[serde_json::Value]) -> (r: serde_json::Value)
    ensures
        json_text(r) == "["@ + text::join(json_texts(items@), ","@) + "]"@,
{
    serde_json::Value::from(items)
}

/// Whether a key is made of small letters, of which none is escaped in JSON.
pub open spec fn plain_key(key: Seq<char>) -> bool {
    key.len() > 0 && forall|i: int| 0 <= i < key.len() ==> 'a' <= #[trigger] key[i] <= 'z'
}

/// Wrapper of `serde_json::Value::from_iter` on two members: the object of them, in the
/// order of the keys.
#[verifier::external_body]
pub(crate) fn object_value(
    first: (&str, &serde_json::Value),
    second: (&str, &serde_json::Value),
) -> (r: serde_json::Value)
    requires
        plain_key(first.0@),
        plain_key(second.0@),
        first.0@[0] < second.0@[0],
    ensures
        json_text(r) == "{\""@ + first.0@ + "\":"@ + json_text(*first.1) + ",\""@ + second.0@
            + "\":"@ + json_text(*second.1) + "}"@,
{
    serde_json::Value::from_iter([
        (first.0, first.1.clone()),
        (second.0, second.1.clone()),
    ])
}

impl Json {
    /// Takes the items of a member out of the value.
    pub fn take_array(self, key: &str) -> (r: Option<Vec<Json>>)
        ensures
            match r {
                Some(v) => field_items(self@, key@) == Some(values(v@)),
                None => field_items(self@, key@) is None,
            },
    {
        let ghost whole = self@;
        match self {
            Json::Object(entries) => {
                let ghost all = members(entries@);
                assert(whole->Object_0 =~= all);
                let mut entries = entries;
                let mut i: usize = 0;
                assert(all.skip(0) =~= all);
                while i < entries.len()
                    invariant
                        i <= entries.len(),
                        all == members(entries@),
                        whole == self@,
                        whole == JsonView::Object(all),
                        member(all, key@) == member(all.skip(i as int), key@),
                    decreases entries.len() - i,
                {
                    assert(all.skip(i as int)[0] == (entries@[i as int].0@, entries@[i as int].1@));
                    if text::same(entries[i].0.as_str(), key) {
                        let (_, value) = entries.swap_remove(i);
                        return match value {
                            Json::Array(v) => {
                                assert(value@->Array_0 =~= values(v@));
                                Some(v)
                            },
                            _ => None,
                        };
                    }
                    assert(all.skip(i as int).drop_first() =~= all.skip(i as int + 1));
                    i = i + 1;
                }
                None
            },
            _ => None,
        }
    }
}

/// A member is read from the first place where its name stands.
pub proof fn first_member_counts(
    before: Seq<(Seq<char>, JsonView)>,
    key: Seq<char>,
    value: JsonView,
    after: Seq<(Seq<char>, JsonView)>,
)
    requires
        forall|i: int| 0 <= i < before.len() ==> (#[trigger] before[i]).0 != key,
    ensures
        member(before + seq![(key, value)] + after, key) == Some(value),
        member(before, key) is None,
    decreases before.len(),
{
    let all = before + seq![(key, value)] + after;
    if before.len() == 0 {
        assert(all[0] == (key, value));
    } else {
        let rest = before.drop_first();
        assert(all[0] == before[0]);
        assert(all.drop_first() =~= rest + seq![(key, value)] + after);
        assert forall|i: int| 0 <= i < rest.len() implies (#[trigger] rest[i]).0 != key by {
            assert(rest[i] == before[i + 1]);
        }
        first_member_counts(rest, key, value, after);
    }
}

/// A member is read as a text, a list or an integer exactly where it is one; only
/// objects have members.
pub proof fn members_are_read_by_their_kind(v: JsonView, key: Seq<char>)
    ensures
        !(v is Object) ==> field(v, key) is None,
        field_text(v, key) matches Some(t) <==> (field(v, key) matches Some(JsonView::Text(t))),
        field_text(v, key) is Some ==> field(v, key) == Some(JsonView::Text(field_text(v, key)->0)),
        field_items(v, key) is Some <==> (field(v, key) matches Some(JsonView::Array(_))),
        field_items(v, key) is Some ==> field(v, key) == Some(
            JsonView::Array(field_items(v, key)->0),
        ),
        field_integer(v, key) matches Some(n) ==> i64::MIN <= n <= i64::MAX && field(v, key)
            == Some(JsonView::Number(NumberView::Integer(n))),
        field(v, key) matches Some(JsonView::Number(NumberView::Integer(n))) ==> (i64::MIN <= n
            <= i64::MAX ==> field_integer(v, key) == Some(n)),
{
}

} // verus!
