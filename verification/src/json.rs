//! The values event payloads are made of.

use crate::text;
use vstd::prelude::*;
use vstd::string::*;

verus! {

/// A value of a payload.
pub enum Json {
    Null,
    Bool(bool),
    Int(i128),
    /// A number that is no integer, as its digits are written.
    Decimal(String),
    Text(String),
    List(Vec<Json>),
    Object(Vec<Member>),
}

/// A key of an object with its value.
pub struct Member {
    pub key: String,
    pub value: Json,
}

/// What a value says.
pub ghost enum Value {
    Null,
    Bool(bool),
    Int(int),
    Decimal(Seq<char>),
    Text(Seq<char>),
    List(Seq<Value>),
    Object(Seq<(Seq<char>, Value)>),
}

impl Json {
    /// What this value says.
    pub open spec fn view(self) -> Value
        decreases self,
    {
        match self {
            Json::Null => Value::Null,
            Json::Bool(b) => Value::Bool(b),
            Json::Int(n) => Value::Int(n as int),
            Json::Decimal(digits) => Value::Decimal(digits@),
            Json::Text(s) => Value::Text(s@),
            Json::List(items) => Value::List(items_view(items@)),
            Json::Object(members) => Value::Object(members_view(members@)),
        }
    }
}

/// What the values of a list say.
pub open spec fn items_view(items: Seq<Json>) -> Seq<Value>
    decreases items,
{
    if items.len() == 0 {
        Seq::empty()
    } else {
        items_view(items.drop_last()).push(items.last().view())
    }
}

/// What the members of an object say.
pub open spec fn members_view(members: Seq<Member>) -> Seq<(Seq<char>, Value)>
    decreases members,
{
    if members.len() == 0 {
        Seq::empty()
    } else {
        members_view(members.drop_last()).push((members.last().key@, members.last().value.view()))
    }
}

/// The views of a list's values are those of each of them.
pub proof fn items_viewed(items: Seq<Json>)
    ensures
        items_view(items).len() == items.len(),
        forall|i: int| 0 <= i < items.len() ==> #[trigger] items_view(items)[i] == items[i].view(),
    decreases items.len(),
{
    if items.len() > 0 {
        items_viewed(items.drop_last());
    }
}

/// The views of two lists one after the other.
pub proof fn items_joined(a: Seq<Json>, b: Seq<Json>)
    ensures
        items_view(a + b) == items_view(a) + items_view(b),
    decreases b.len(),
{
    if b.len() == 0 {
        assert(a + b =~= a);
        assert(items_view(b) =~= Seq::empty());
    } else {
        items_joined(a, b.drop_last());
        assert((a + b).drop_last() =~= a + b.drop_last());
    }
}

/// The views of an object's members are those of each of them.
pub proof fn members_viewed(members: Seq<Member>)
    ensures
        members_view(members).len() == members.len(),
        forall|i: int|
            0 <= i < members.len() ==> #[trigger] members_view(members)[i] == (
                members[i].key@,
                members[i].value.view(),
            ),
    decreases members.len(),
{
    if members.len() > 0 {
        members_viewed(members.drop_last());
    }
}

/// The value of `key` among `members`: that of the first member with the key.
pub open spec fn found(members: Seq<(Seq<char>, Value)>, key: Seq<char>) -> Option<Value>
    decreases members.len(),
{
    if members.len() == 0 {
        None
    } else if members[0].0 == key {
        Some(members[0].1)
    } else {
        found(members.skip(1), key)
    }
}

/// The value of `key` in an object; null where there is none.
pub open spec fn at(v: Value, key: Seq<char>) -> Value {
    match v {
        Value::Object(members) => match found(members, key) {
            Some(value) => value,
            None => Value::Null,
        },
        _ => Value::Null,
    }
}

/// The text of a value that is one.
pub open spec fn text_of(v: Value) -> Option<Seq<char>> {
    match v {
        Value::Text(s) => Some(s),
        _ => None,
    }
}

/// The number of a value that is one and fits a signed word.
pub open spec fn int_of(v: Value) -> Option<int> {
    match v {
        Value::Int(n) => if i64::MIN <= n <= i64::MAX {
            Some(n)
        } else {
            None
        },
        _ => None,
    }
}

/// The number of a value that is one and fits an unsigned word.
pub open spec fn nat_of(v: Value) -> Option<int> {
    match v {
        Value::Int(n) => if 0 <= n <= u64::MAX {
            Some(n)
        } else {
            None
        },
        _ => None,
    }
}

impl Json {
    /// A value that says the same.
    pub fn copy(&self) -> (r: Json)
        ensures
            r@ == self@,
        decreases self,
    {
        match self {
            Json::Null => Json::Null,
            Json::Bool(b) => Json::Bool(*b),
            Json::Int(n) => Json::Int(*n),
            Json::Decimal(digits) => Json::Decimal(digits.clone()),
            Json::Text(s) => Json::Text(s.clone()),
            Json::List(items) => {
                let mut out: Vec<Json> = Vec::new();
                let mut i: usize = 0;
                while i < items.len()
                    invariant
                        i <= items@.len(),
                        *self == Json::List(*items),
                        items_view(out@) == items_view(items@.take(i as int)),
                    decreases items@.len() - i,
                {
                    let ghost had = out@;
                    assert(decreases_to!(*self => self->List_0));
                    assert(decreases_to!(*items => items@));
                    assert(decreases_to!(items@ => items@[i as int]));
                    let item = items[i].copy();
                    out.push(item);
                    assert(out@.drop_last() =~= had);
                    assert(items@.take(i + 1).drop_last() =~= items@.take(i as int));
                    i += 1;
                }
                assert(items@.take(i as int) =~= items@);
                Json::List(out)
            },
            Json::Object(members) => {
                let mut out: Vec<Member> = Vec::new();
                let mut i: usize = 0;
                while i < members.len()
                    invariant
                        i <= members@.len(),
                        *self == Json::Object(*members),
                        members_view(out@) == members_view(members@.take(i as int)),
                    decreases members@.len() - i,
                {
                    let ghost had = out@;
                    assert(decreases_to!(*self => self->Object_0));
                    assert(decreases_to!(*members => members@));
                    assert(decreases_to!(members@ => members@[i as int]));
                    assert(decreases_to!(members@[i as int] => members@[i as int].value));
                    let value = members[i].value.copy();
                    out.push(Member { key: members[i].key.clone(), value });
                    assert(out@.drop_last() =~= had);
                    assert(members@.take(i + 1).drop_last() =~= members@.take(i as int));
                    i += 1;
                }
                assert(members@.take(i as int) =~= members@);
                Json::Object(out)
            },
        }
    }

    /// The value of `key`, if this is an object that has it.
    pub fn get(&self, key: &str) -> (r: Option<&Json>)
        ensures
            match r {
                Some(value) => self@ is Object && found(self@->Object_0, key@) == Some(value@),
                None => self@ is Object ==> found(self@->Object_0, key@) is None,
            },
    {
        match self {
            Json::Object(members) => {
                let mut i: usize = 0;
                let ghost all = members_view(members@);
                proof {
                    members_viewed(members@);
                    assert(all.skip(0) =~= all);
                }
                while i < members.len()
                    invariant
                        i <= members@.len(),
                        all == members_view(members@),
                        self@ == Value::Object(all),
                        all.len() == members@.len(),
                        forall|j: int|
                            0 <= j < members@.len() ==> #[trigger] all[j] == (
                                members@[j].key@,
                                members@[j].value.view(),
                            ),
                        found(all, key@) == found(all.skip(i as int), key@),
                    decreases members@.len() - i,
                {
                    assert(all.skip(i as int)[0] == all[i as int]);
                    assert(all.skip(i as int).skip(1) =~= all.skip(i + 1));
                    if text::same(members[i].key.as_str(), key) {
                        return Some(&members[i].value);
                    }
                    i += 1;
                }
                None
            },
            _ => None,
        }
    }

    /// The text of `key`.
    pub fn text(&self, key: &str) -> (r: Option<String>)
        ensures
            text::opt_view(r) == text_of(at(self@, key@)),
    {
        match self.get(key) {
            Some(value) => match value {
                Json::Text(s) => Some(s.clone()),
                _ => None,
            },
            None => None,
        }
    }

    /// The number of `key`.
    pub fn integer(&self, key: &str) -> (r: Option<i64>)
        ensures
            match r {
                Some(n) => int_of(at(self@, key@)) == Some(n as int),
                None => int_of(at(self@, key@)) is None,
            },
    {
        match self.get(key) {
            Some(value) => match value {
                Json::Int(n) => if i64::MIN as i128 <= *n && *n <= i64::MAX as i128 {
                    Some(*n as i64)
                } else {
                    None
                },
                _ => None,
            },
            None => None,
        }
    }

    /// The number of `key` where it is not negative.
    pub fn natural(&self, key: &str) -> (r: Option<u64>)
        ensures
            match r {
                Some(n) => nat_of(at(self@, key@)) == Some(n as int),
                None => nat_of(at(self@, key@)) is None,
            },
    {
        match self.get(key) {
            Some(value) => match value {
                Json::Int(n) => if 0 <= *n && *n <= u64::MAX as i128 {
                    Some(*n as u64)
                } else {
                    None
                },
                _ => None,
            },
            None => None,
        }
    }

    /// Whether `key` is this text.
    pub fn says(&self, key: &str, what: &str) -> (r: bool)
        ensures
            r == (at(self@, key@) == Value::Text(what@)),
    {
        match self.get(key) {
            Some(value) => match value {
                Json::Text(s) => text::same(s.as_str(), what),
                _ => false,
            },
            None => false,
        }
    }

    /// Whether `key` is true.
    pub fn is_true(&self, key: &str) -> (r: bool)
        ensures
            r == (at(self@, key@) == Value::Bool(true)),
    {
        match self.get(key) {
            Some(value) => match value {
                Json::Bool(b) => *b,
                _ => false,
            },
            None => false,
        }
    }

    /// Whether `key` is this number.
    pub fn is_int(&self, key: &str, n: i64) -> (r: bool)
        ensures
            r == (at(self@, key@) == Value::Int(n as int)),
    {
        match self.integer(key) {
            Some(m) => m == n,
            None => false,
        }
    }

    /// The texts of `key` where it is a list of texts and nothing else.
    pub fn texts(&self, key: &str) -> (r: Option<Vec<String>>)
        ensures
            match r {
                Some(list) => texts_of(at(self@, key@)) == Some(text::views(list@)),
                None => texts_of(at(self@, key@)) is None,
            },
    {
        match self.get(key) {
            Some(value) => match value {
                Json::List(items) => {
                    let mut out: Vec<String> = Vec::new();
                    let mut i: usize = 0;
                    proof {
                        items_viewed(items@);
                    }
                    while i < items.len()
                        invariant
                            i <= items@.len(),
                            at(self@, key@) == Value::List(items_view(items@)),
                            items_view(items@).len() == items@.len(),
                            forall|j: int|
                                0 <= j < items@.len() ==> #[trigger] items_view(items@)[j]
                                    == items@[j].view(),
                            out@.len() == i,
                            forall|j: int|
                                0 <= j < i ==> items_view(items@)[j] == Value::Text(
                                    (#[trigger] out@[j])@,
                                ),
                        decreases items@.len() - i,
                    {
                        match &items[i] {
                            Json::Text(s) => {
                                out.push(s.clone());
                            },
                            _ => {
                                assert(items_view(items@)[i as int] !is Text);
                                return None;
                            },
                        }
                        i += 1;
                    }
                    proof {
                        let all = items_view(items@);
                        assert forall|j: int| 0 <= j < all.len() implies (#[trigger] all[j]) is Text by {
                            assert(all[j] == Value::Text(out@[j]@));
                        }
                        assert(text::views(out@) =~= texts_of(at(self@, key@))->0);
                    }
                    Some(out)
                },
                _ => None,
            },
            None => None,
        }
    }
}

/// The texts of a value that is a list of texts.
pub open spec fn texts_of(v: Value) -> Option<Seq<Seq<char>>> {
    match v {
        Value::List(items) => if forall|i: int| 0 <= i < items.len() ==> (#[trigger] items[i]) is Text {
            Some(Seq::new(items.len(), |i: int| items[i]->Text_0))
        } else {
            None
        },
        _ => None,
    }
}

/// Members with `key` as `value`: the first member with the key gets it, and
/// one is added where there is none.
pub open spec fn placed(
    members: Seq<(Seq<char>, Value)>,
    key: Seq<char>,
    value: Value,
) -> Seq<(Seq<char>, Value)>
    decreases members.len(),
{
    if members.len() == 0 {
        seq![(key, value)]
    } else if members[0].0 == key {
        seq![(key, value)] + members.skip(1)
    } else {
        seq![members[0]] + placed(members.skip(1), key, value)
    }
}

/// An object with `key` as `value`; a value that is no object gives one with
/// that member alone.
pub open spec fn put(v: Value, key: Seq<char>, value: Value) -> Value {
    match v {
        Value::Object(members) => Value::Object(placed(members, key, value)),
        _ => Value::Object(seq![(key, value)]),
    }
}

/// A key that was put reads as what was put, and no other key changes.
pub proof fn put_reads_back(
    members: Seq<(Seq<char>, Value)>,
    key: Seq<char>,
    value: Value,
    other: Seq<char>,
)
    ensures
        found(placed(members, key, value), key) == Some(value),
        other != key ==> found(placed(members, key, value), other) == found(members, other),
    decreases members.len(),
{
    let after = placed(members, key, value);
    if members.len() == 0 {
        assert(after.skip(1) =~= Seq::empty());
        assert(found(after.skip(1), other) is None);
    } else if members[0].0 == key {
        assert(after.skip(1) =~= members.skip(1));
    } else {
        put_reads_back(members.skip(1), key, value, other);
        assert(after.skip(1) =~= placed(members.skip(1), key, value));
    }
}

/// Members up to a place that has another key are kept before it.
proof fn placed_after(
    front: Seq<(Seq<char>, Value)>,
    rest: Seq<(Seq<char>, Value)>,
    key: Seq<char>,
    value: Value,
)
    requires
        forall|i: int| 0 <= i < front.len() ==> (#[trigger] front[i]).0 != key,
    ensures
        placed(front + rest, key, value) == front + placed(rest, key, value),
    decreases front.len(),
{
    let all = front + rest;
    if front.len() == 0 {
        assert(all =~= rest);
        assert(front + placed(rest, key, value) =~= placed(rest, key, value));
    } else {
        assert(all.skip(1) =~= front.skip(1) + rest);
        assert forall|i: int| 0 <= i < front.skip(1).len() implies (#[trigger] front.skip(1)[i]).0
            != key by {
            assert(front.skip(1)[i] == front[i + 1]);
        }
        placed_after(front.skip(1), rest, key, value);
        assert(seq![all[0]] + (front.skip(1) + placed(rest, key, value)) =~= front + placed(
            rest,
            key,
            value,
        ));
    }
}

impl Json {
    /// This object with `key` as `value`.
    pub fn with(self, key: &str, value: Json) -> (r: Json)
        ensures
            r@ == put(self@, key@, value@),
    {
        let members = match self {
            Json::Object(members) => members,
            _ => {
                let fields = Fields::new().with(key, value);
                assert(fields@ =~= seq![(key@, value@)]);
                return fields.done();
            },
        };
        let ghost all = members_view(members@);
        let mut members = members;
        let mut at: usize = 0;
        proof {
            members_viewed(members@);
        }
        while at < members.len()
            invariant
                at <= members@.len(),
                all == members_view(members@),
                all.len() == members@.len(),
                forall|j: int|
                    0 <= j < members@.len() ==> #[trigger] all[j] == (
                        members@[j].key@,
                        members@[j].value.view(),
                    ),
                self@ == Value::Object(all),
                forall|j: int| 0 <= j < at ==> (#[trigger] all[j]).0 != key@,
            decreases members@.len() - at,
        {
            if text::same(members[at].key.as_str(), key) {
                let ghost said = value@;
                let name = members[at].key.clone();
                let ghost had = members@;
                members.set(at, Member { key: name, value });
                proof {
                    members_viewed(members@);
                    let front = all.take(at as int);
                    let rest = all.skip(at as int);
                    assert(front + rest =~= all);
                    assert forall|i: int| 0 <= i < front.len() implies (#[trigger] front[i]).0
                        != key@ by {
                        assert(front[i] == all[i]);
                    }
                    placed_after(front, rest, key@, said);
                    assert(rest[0] == all[at as int]);
                    assert(members_view(members@) =~= front + placed(rest, key@, said));
                }
                return Json::Object(members);
            }
            at += 1;
        }
        proof {
            let rest = all.skip(at as int);
            assert(all.take(at as int) =~= all);
            assert(rest =~= Seq::empty());
            assert(all + rest =~= all);
            placed_after(all, rest, key@, value@);
            assert(all + seq![(key@, value@)] =~= all.push((key@, value@)));
        }
        let fields = Fields { members };
        fields.with(key, value).done()
    }
}

/// An object under construction.
pub struct Fields {
    pub members: Vec<Member>,
}

impl Fields {
    /// What its members say.
    pub open spec fn view(&self) -> Seq<(Seq<char>, Value)> {
        members_view(self.members@)
    }

    /// An object without members.
    pub fn new() -> (r: Fields)
        ensures
            r@ == Seq::<(Seq<char>, Value)>::empty(),
    {
        Fields { members: Vec::new() }
    }

    /// With `key` as `value`.
    pub fn with(self, key: &str, value: Json) -> (r: Fields)
        ensures
            r@ == self@.push((key@, value@)),
    {
        let mut members = self.members;
        let ghost had = members@;
        members.push(Member { key: key.to_owned(), value });
        assert(members@.drop_last() =~= had);
        Fields { members }
    }

    /// With `key` as a text.
    pub fn text(self, key: &str, value: &str) -> (r: Fields)
        ensures
            r@ == self@.push((key@, Value::Text(value@))),
    {
        self.with(key, Json::Text(value.to_owned()))
    }

    /// With `key` as a number.
    pub fn number(self, key: &str, value: i128) -> (r: Fields)
        ensures
            r@ == self@.push((key@, Value::Int(value as int))),
    {
        self.with(key, Json::Int(value))
    }

    /// With `key` as true or false.
    pub fn flag(self, key: &str, value: bool) -> (r: Fields)
        ensures
            r@ == self@.push((key@, Value::Bool(value))),
    {
        self.with(key, Json::Bool(value))
    }

    /// With `key` as a text, or as null where there is none.
    pub fn opt_text(self, key: &str, value: &Option<String>) -> (r: Fields)
        ensures
            r@ == self@.push((key@, text_or_null(text::opt_view(*value)))),
    {
        match value {
            Some(s) => self.with(key, Json::Text(s.clone())),
            None => self.with(key, Json::Null),
        }
    }

    /// With `key` as a list of texts.
    pub fn texts(self, key: &str, value: &Vec<String>) -> (r: Fields)
        ensures
            r@ == self@.push((key@, list_of(text::views(value@)))),
    {
        let mut items: Vec<Json> = Vec::new();
        let mut i: usize = 0;
        while i < value.len()
            invariant
                i <= value@.len(),
                items_view(items@) == text_values(text::views(value@)).take(i as int),
            decreases value@.len() - i,
        {
            let ghost had = items@;
            items.push(Json::Text(value[i].clone()));
            assert(items@.drop_last() =~= had);
            assert(items@.last().view() == Value::Text(value@[i as int]@));
            assert(text_values(text::views(value@)).take(i + 1) =~= text_values(
                text::views(value@),
            ).take(i as int).push(Value::Text(value@[i as int]@)));
            i += 1;
        }
        assert(text_values(text::views(value@)).take(i as int) =~= text_values(
            text::views(value@),
        ));
        self.with(key, Json::List(items))
    }

    /// The object.
    pub fn done(self) -> (r: Json)
        ensures
            r@ == Value::Object(self@),
    {
        Json::Object(self.members)
    }
}

/// Each text as a value.
pub open spec fn text_values(list: Seq<Seq<char>>) -> Seq<Value> {
    list.map_values(|s: Seq<char>| Value::Text(s))
}

/// A list of texts as a value.
pub open spec fn list_of(list: Seq<Seq<char>>) -> Value {
    Value::List(text_values(list))
}

/// A text as a value, null where there is none.
pub open spec fn text_or_null(o: Option<Seq<char>>) -> Value {
    match o {
        Some(s) => Value::Text(s),
        None => Value::Null,
    }
}

/// The object without members, to add to in contracts.
pub open spec fn none() -> Seq<(Seq<char>, Value)> {
    Seq::empty()
}

/// What is found under a key is the first member of that key; nothing is found
/// only where no member has it.
pub proof fn the_first_member_is_found(members: Seq<(Seq<char>, Value)>, key: Seq<char>)
    ensures
        match found(members, key) {
            Some(value) => exists|i: int|
                0 <= i < members.len() && (#[trigger] members[i]) == (key, value) && forall|j: int|
                    0 <= j < i ==> (#[trigger] members[j]).0 != key,
            None => forall|i: int| 0 <= i < members.len() ==> (#[trigger] members[i]).0 != key,
        },
    decreases members.len(),
{
    if members.len() > 0 {
        if members[0].0 == key {
            assert(members[0] == (key, members[0].1));
        } else {
            let rest = members.skip(1);
            the_first_member_is_found(rest, key);
            if let Some(value) = found(rest, key) {
                let i = choose|i: int|
                    0 <= i < rest.len() && (#[trigger] rest[i]) == (key, value) && forall|j: int|
                        0 <= j < i ==> (#[trigger] rest[j]).0 != key;
                assert(members[i + 1] == (key, value));
                assert forall|j: int| 0 <= j < i + 1 implies (#[trigger] members[j]).0 != key by {
                    if j > 0 {
                        assert(rest[j - 1] == members[j]);
                    }
                }
            } else {
                assert forall|i: int| 0 <= i < members.len() implies (#[trigger] members[i]).0
                    != key by {
                    if i > 0 {
                        assert(rest[i - 1] == members[i]);
                    }
                }
            }
        }
    }
}

/// A member is read only from an object, and one that is missing reads as null.
pub proof fn only_objects_have_members(v: Value, key: Seq<char>)
    ensures
        v !is Object ==> at(v, key) is Null,
        (v is Object && forall|i: int|
            0 <= i < v->Object_0.len() ==> (#[trigger] v->Object_0[i]).0 != key) ==> at(v, key)
            is Null,
        at(v, key) !is Null ==> v is Object && v->Object_0.contains((key, at(v, key))),
{
    if v is Object {
        the_first_member_is_found(v->Object_0, key);
        if let Some(value) = found(v->Object_0, key) {
            let i = choose|i: int|
                0 <= i < v->Object_0.len() && (#[trigger] v->Object_0[i]) == (key, value);
            assert(v->Object_0[i] == (key, value));
        }
    }
}

/// A number is read as an integer or a natural number only where it is one that
/// fits.
pub proof fn numbers_are_read_where_they_fit(v: Value)
    ensures
        int_of(v) is Some <==> (v matches Value::Int(n) && -0x8000_0000_0000_0000 <= n
            <= 0x7fff_ffff_ffff_ffff),
        nat_of(v) is Some <==> (v matches Value::Int(n) && 0 <= n <= 0xffff_ffff_ffff_ffff),
        int_of(v) is Some ==> v == Value::Int(int_of(v)->0),
        nat_of(v) is Some ==> v == Value::Int(nat_of(v)->0),
        text_of(v) is Some <==> v is Text,
        text_of(v) is Some ==> v == Value::Text(text_of(v)->0),
{
}

/// A list is read as texts only where every item is a text, and then each in its
/// place.
pub proof fn texts_are_read_whole(v: Value)
    ensures
        texts_of(v) is Some <==> v is List && forall|i: int|
            0 <= i < v->List_0.len() ==> (#[trigger] v->List_0[i]) is Text,
        texts_of(v) is Some ==> texts_of(v)->0.len() == v->List_0.len() && forall|i: int|
            0 <= i < v->List_0.len() ==> (#[trigger] v->List_0[i]) == Value::Text(
                texts_of(v)->0[i],
            ),
{
}

/// Putting a member in replaces the one of its key, adds it where there was
/// none, and leaves every other as it was.
pub proof fn putting_changes_one_member(
    v: Value,
    key: Seq<char>,
    value: Value,
    other: Seq<char>,
)
    ensures
        at(put(v, key, value), key) == value,
        v is Object && other != key ==> at(put(v, key, value), other) == at(v, other),
        put(v, key, value) is Object,
{
    if v is Object {
        put_reads_back(v->Object_0, key, value, other);
    } else {
        let one = seq![(key, value)];
        assert(one[0].0 == key);
        assert(found(one, key) == Some(value));
    }
}

/// A text that is there is written as one, and one that is not as null.
pub proof fn a_missing_text_is_null(o: Option<Seq<char>>)
    ensures
        o is Some ==> text_or_null(o) == Value::Text(o->0),
        o is None ==> text_or_null(o) is Null,
{
}

} // verus!
