//! JSON documents as values of the crate's own, and the mathematical model
//! that the contracts speak of.

use vstd::prelude::*;

verus! {

/// A JSON document. An object keeps its members in the order in which they
/// were written; a number without a fraction is an `Integer`, any other a
/// `Real` that holds the number's decimal text.
#[derive(Debug, PartialEq, Eq)]
pub enum Json {
    Null,
    Bool(bool),
    Integer(i128),
    Real(String),
    Text(String),
    Array(Vec<Json>),
    Object(Vec<(String, Json)>),
}

/// A JSON number: a whole number, or the decimal text of any other.
#[derive(Debug, Clone, PartialEq, Eq)]
pub enum Number {
    Integer(i128),
    Real(String),
}

/// What a `Number` is, as a mathematical value.
pub ghost enum NumberModel {
    Integer(int),
    Real(Seq<char>),
}

impl View for Number {
    type V = NumberModel;

    open spec fn view(&self) -> NumberModel {
        match self {
            Number::Integer(n) => NumberModel::Integer(*n as int),
            Number::Real(s) => NumberModel::Real(s@),
        }
    }
}

/// What a `Json` is, as a mathematical value.
pub ghost enum JsonModel {
    Null,
    Bool(bool),
    Integer(int),
    Real(Seq<char>),
    Text(Seq<char>),
    Array(Seq<JsonModel>),
    Object(Seq<(Seq<char>, JsonModel)>),
}

/// The model of the document `doc`.
pub open spec fn model_of(doc: Json) -> JsonModel
    decreases doc,
{
    match doc {
        Json::Null => JsonModel::Null,
        Json::Bool(b) => JsonModel::Bool(b),
        Json::Integer(n) => JsonModel::Integer(n as int),
        Json::Real(s) => JsonModel::Real(s@),
        Json::Text(s) => JsonModel::Text(s@),
        Json::Array(items) => JsonModel::Array(
            Seq::new(
                items@.len(),
                |i: int|
                    if 0 <= i < items@.len() {
                        model_of(items@[i])
                    } else {
                        JsonModel::Null
                    },
            ),
        ),
        Json::Object(members) => JsonModel::Object(
            Seq::new(
                members@.len(),
                |i: int|
                    if 0 <= i < members@.len() {
                        (members@[i].0@, model_of(members@[i].1))
                    } else {
                        (Seq::empty(), JsonModel::Null)
                    },
            ),
        ),
    }
}

impl View for Json {
    type V = JsonModel;

    open spec fn view(&self) -> JsonModel {
        model_of(*self)
    }
}

/// The models of the documents in `items`.
pub open spec fn items_view(items: Seq<Json>) -> Seq<JsonModel> {
    Seq::new(items.len(), |i: int| items[i]@)
}

/// The models of the members in `members`.
pub open spec fn members_view(members: Seq<(String, Json)>) -> Seq<(Seq<char>, JsonModel)> {
    Seq::new(members.len(), |i: int| (members[i].0@, members[i].1@))
}

/// The view of an array is the view of its items.
pub proof fn lemma_array_view(items: Vec<Json>)
    ensures
        Json::Array(items)@ == JsonModel::Array(items_view(items@)),
{
    assert(Json::Array(items)@->Array_0 =~= items_view(items@));
}

/// The view of an object is the view of its members.
pub proof fn lemma_object_view(members: Vec<(String, Json)>)
    ensures
        Json::Object(members)@ == JsonModel::Object(members_view(members@)),
{
    let doc = Json::Object(members);
    assert(doc@ is Object);
    let fields = doc@->Object_0;
    assert(fields == Seq::new(
                    members@.len(),
                    |i: int|
                        if 0 <= i < members@.len() {
                            (members@[i].0@, members@[i].1@)
                        } else {
                            (Seq::empty(), JsonModel::Null)
                        },
                ));
    assert(fields.len() == members@.len());
    assert forall|i: int| 0 <= i < fields.len() implies fields[i] == members_view(members@)[i] by {
        assert(fields[i] == (members@[i].0@, members@[i].1@));
    }
    assert(fields =~= members_view(members@));
}

/// The value of the first member of `members` named `key`, from position
/// `from` on.
pub open spec fn find_member(members: Seq<(Seq<char>, JsonModel)>, key: Seq<char>, from: int)
    -> Option<JsonModel>
    decreases members.len() - from,
{
    if from < 0 || from >= members.len() {
        None
    } else if members[from].0 == key {
        Some(members[from].1)
    } else {
        find_member(members, key, from + 1)
    }
}

impl JsonModel {
    /// The member `key` of an object; `None` for any other document and for
    /// an object without such a member.
    pub open spec fn field(self, key: Seq<char>) -> Option<JsonModel> {
        match self {
            JsonModel::Object(members) => find_member(members, key, 0),
            _ => None,
        }
    }

    /// The text of a string document.
    pub open spec fn text(self) -> Option<Seq<char>> {
        match self {
            JsonModel::Text(s) => Some(s),
            _ => None,
        }
    }

    /// The value of a boolean document.
    pub open spec fn flag(self) -> Option<bool> {
        match self {
            JsonModel::Bool(b) => Some(b),
            _ => None,
        }
    }

    /// The member `key`, where `null` counts as absent.
    pub open spec fn present(self, key: Seq<char>) -> Option<JsonModel> {
        match self.field(key) {
            None => None,
            Some(JsonModel::Null) => None,
            Some(v) => Some(v),
        }
    }

    /// The value of the member `key`, a whole number from `min` to `max`,
    /// which must be there.
    pub open spec fn required_integer_member(self, key: Seq<char>, min: int, max: int) -> Result<
        int,
        Seq<char>,
    > {
        match self.field(key) {
            None => Err(missing(key)),
            Some(JsonModel::Integer(n)) => if min <= n <= max {
                Ok(n)
            } else {
                Err(invalid(key))
            },
            Some(_) => Err(invalid(key)),
        }
    }

    /// The value of a number document.
    pub open spec fn number(self) -> Option<NumberModel> {
        match self {
            JsonModel::Integer(n) => Some(NumberModel::Integer(n)),
            JsonModel::Real(s) => Some(NumberModel::Real(s)),
            _ => None,
        }
    }

    /// The number of the member `key`, which must be there.
    pub open spec fn required_number_member(self, key: Seq<char>) -> Result<
        NumberModel,
        Seq<char>,
    > {
        match self.field(key) {
            None => Err(missing(key)),
            Some(v) => match v.number() {
                Some(n) => Ok(n),
                None => Err(invalid(key)),
            },
        }
    }

    /// The text of the member `key`, where it is a string.
    pub open spec fn text_field(self, key: Seq<char>) -> Option<Seq<char>> {
        match self.field(key) {
            Some(v) => v.text(),
            None => None,
        }
    }

    /// The value of the member `key`, where it is a boolean.
    pub open spec fn flag_field(self, key: Seq<char>) -> Option<bool> {
        match self.field(key) {
            Some(v) => v.flag(),
            None => None,
        }
    }
}

/// Why a member that must be there was not found.
pub open spec fn missing(key: Seq<char>) -> Seq<char> {
    "missing field: "@ + key
}

/// Why a member that was found was not accepted.
pub open spec fn invalid(key: Seq<char>) -> Seq<char> {
    "invalid field: "@ + key
}

impl JsonModel {
    /// The text of the member `key`, which may be absent or `null`.
    pub open spec fn optional_text_member(self, key: Seq<char>) -> Result<
        Option<Seq<char>>,
        Seq<char>,
    > {
        match self.field(key) {
            None => Ok(None),
            Some(JsonModel::Null) => Ok(None),
            Some(JsonModel::Text(s)) => Ok(Some(s)),
            Some(_) => Err(invalid(key)),
        }
    }

    /// The text of the member `key`, which must be there.
    pub open spec fn required_text_member(self, key: Seq<char>) -> Result<Seq<char>, Seq<char>> {
        match self.field(key) {
            None => Err(missing(key)),
            Some(JsonModel::Text(s)) => Ok(s),
            Some(_) => Err(invalid(key)),
        }
    }

    /// The value of the boolean member `key`, which must be there.
    pub open spec fn required_flag_member(self, key: Seq<char>) -> Result<bool, Seq<char>> {
        match self.field(key) {
            None => Err(missing(key)),
            Some(JsonModel::Bool(b)) => Ok(b),
            Some(_) => Err(invalid(key)),
        }
    }

    /// The value of the boolean member `key`, or `false` where it is absent.
    pub open spec fn defaulted_flag_member(self, key: Seq<char>) -> Result<bool, Seq<char>> {
        match self.field(key) {
            None => Ok(false),
            Some(JsonModel::Bool(b)) => Ok(b),
            Some(_) => Err(invalid(key)),
        }
    }

    /// The value of the member `key`, a whole number from 0 to `max`, which
    /// may be absent or `null`.
    pub open spec fn optional_count_member(self, key: Seq<char>, max: int) -> Result<
        Option<int>,
        Seq<char>,
    > {
        match self.field(key) {
            None => Ok(None),
            Some(JsonModel::Null) => Ok(None),
            Some(JsonModel::Integer(n)) => if 0 <= n <= max {
                Ok(Some(n))
            } else {
                Err(invalid(key))
            },
            Some(_) => Err(invalid(key)),
        }
    }

    /// The value of the member `key`, a whole number from 0 to `max`, which
    /// must be there.
    pub open spec fn required_count_member(self, key: Seq<char>, max: int) -> Result<
        int,
        Seq<char>,
    > {
        match self.field(key) {
            None => Err(missing(key)),
            Some(JsonModel::Integer(n)) => if 0 <= n <= max {
                Ok(n)
            } else {
                Err(invalid(key))
            },
            Some(_) => Err(invalid(key)),
        }
    }

    /// The texts of an array of strings.
    pub open spec fn texts(self) -> Option<Seq<Seq<char>>> {
        match self {
            JsonModel::Array(items) => if forall|i: int|
                0 <= i < items.len() ==> (#[trigger] items[i]) is Text {
                Some(Seq::new(items.len(), |i: int| items[i]->Text_0))
            } else {
                None
            },
            _ => None,
        }
    }

    /// The texts of the member `key`, an array of strings, which must be
    /// there.
    pub open spec fn required_texts_member(self, key: Seq<char>) -> Result<
        Seq<Seq<char>>,
        Seq<char>,
    > {
        match self.field(key) {
            None => Err(missing(key)),
            Some(v) => match v.texts() {
                Some(t) => Ok(t),
                None => Err(invalid(key)),
            },
        }
    }
}

/// The characters of each text of `texts`.
pub open spec fn texts_view(texts: Seq<String>) -> Seq<Seq<char>> {
    Seq::new(texts.len(), |i: int| texts[i]@)
}

/// Whether `r` holds what `expected` holds, text by text.
pub open spec fn is_optional_text(r: Result<Option<String>, String>, expected: Result<
    Option<Seq<char>>,
    Seq<char>,
>) -> bool {
    match r {
        Ok(Some(s)) => expected == Ok::<Option<Seq<char>>, Seq<char>>(Some(s@)),
        Ok(None) => expected == Ok::<Option<Seq<char>>, Seq<char>>(None),
        Err(e) => expected == Err::<Option<Seq<char>>, Seq<char>>(e@),
    }
}

/// Whether `r` holds what `expected` holds.
pub open spec fn is_text(r: Result<String, String>, expected: Result<Seq<char>, Seq<char>>)
    -> bool {
    match r {
        Ok(s) => expected == Ok::<Seq<char>, Seq<char>>(s@),
        Err(e) => expected == Err::<Seq<char>, Seq<char>>(e@),
    }
}

/// Whether `r` holds what `expected` holds.
pub open spec fn is_flag(r: Result<bool, String>, expected: Result<bool, Seq<char>>) -> bool {
    match r {
        Ok(b) => expected == Ok::<bool, Seq<char>>(b),
        Err(e) => expected == Err::<bool, Seq<char>>(e@),
    }
}

/// Whether `r` holds what `expected` holds.
pub open spec fn is_texts(r: Result<Vec<String>, String>, expected: Result<
    Seq<Seq<char>>,
    Seq<char>,
>) -> bool {
    match r {
        Ok(v) => expected == Ok::<Seq<Seq<char>>, Seq<char>>(texts_view(v@)),
        Err(e) => expected == Err::<Seq<Seq<char>>, Seq<char>>(e@),
    }
}

/// The message that the member `key` is missing.
pub fn missing_member(key: &str) -> (r: String)
    ensures
        r@ == missing(key@),
{
    crate::text::join("missing field: ", key)
}

/// The message that the member `key` was not accepted.
pub fn invalid_member(key: &str) -> (r: String)
    ensures
        r@ == invalid(key@),
{
    crate::text::join("invalid field: ", key)
}

impl Json {
    /// The text of the member `key`, which may be absent or `null`.
    pub fn optional_text_member(&self, key: &str) -> (r: Result<Option<String>, String>)
        ensures
            is_optional_text(r, self@.optional_text_member(key@)),
    {
        match self.get(key) {
            None => Ok(None),
            Some(Json::Null) => Ok(None),
            Some(Json::Text(s)) => Ok(Some(s.clone())),
            Some(_) => Err(invalid_member(key)),
        }
    }

    /// The text of the member `key`, which must be there.
    pub fn required_text_member(&self, key: &str) -> (r: Result<String, String>)
        ensures
            is_text(r, self@.required_text_member(key@)),
    {
        match self.get(key) {
            None => Err(missing_member(key)),
            Some(Json::Text(s)) => Ok(s.clone()),
            Some(_) => Err(invalid_member(key)),
        }
    }

    /// The value of the boolean member `key`, which must be there.
    pub fn required_flag_member(&self, key: &str) -> (r: Result<bool, String>)
        ensures
            is_flag(r, self@.required_flag_member(key@)),
    {
        match self.get(key) {
            None => Err(missing_member(key)),
            Some(Json::Bool(b)) => Ok(*b),
            Some(_) => Err(invalid_member(key)),
        }
    }

    /// The value of the boolean member `key`, or `false` where it is absent.
    pub fn defaulted_flag_member(&self, key: &str) -> (r: Result<bool, String>)
        ensures
            is_flag(r, self@.defaulted_flag_member(key@)),
    {
        match self.get(key) {
            None => Ok(false),
            Some(Json::Bool(b)) => Ok(*b),
            Some(_) => Err(invalid_member(key)),
        }
    }

    /// The value of the member `key`, a whole number that fits 32 bits
    /// without a sign, which may be absent or `null`.
    pub fn optional_u32_member(&self, key: &str) -> (r: Result<Option<u32>, String>)
        ensures
            match r {
                Ok(Some(n)) => self@.optional_count_member(key@, u32::MAX as int) == Ok::<
                    Option<int>,
                    Seq<char>,
                >(Some(n as int)),
                Ok(None) => self@.optional_count_member(key@, u32::MAX as int) == Ok::<
                    Option<int>,
                    Seq<char>,
                >(None),
                Err(e) => self@.optional_count_member(key@, u32::MAX as int) == Err::<
                    Option<int>,
                    Seq<char>,
                >(e@),
            },
    {
        match self.get(key) {
            None => Ok(None),
            Some(Json::Null) => Ok(None),
            Some(Json::Integer(n)) => {
                if 0 <= *n && *n <= 0xFFFF_FFFF {
                    Ok(Some(*n as u32))
                } else {
                    Err(invalid_member(key))
                }
            },
            Some(_) => Err(invalid_member(key)),
        }
    }

    /// The value of the member `key`, a whole number that fits 64 bits
    /// without a sign, which must be there.
    pub fn required_u64_member(&self, key: &str) -> (r: Result<u64, String>)
        ensures
            match r {
                Ok(n) => self@.required_count_member(key@, u64::MAX as int) == Ok::<
                    int,
                    Seq<char>,
                >(n as int),
                Err(e) => self@.required_count_member(key@, u64::MAX as int) == Err::<
                    int,
                    Seq<char>,
                >(e@),
            },
    {
        match self.get(key) {
            None => Err(missing_member(key)),
            Some(Json::Integer(n)) => {
                if 0 <= *n && *n <= 0xFFFF_FFFF_FFFF_FFFF {
                    Ok(*n as u64)
                } else {
                    Err(invalid_member(key))
                }
            },
            Some(_) => Err(invalid_member(key)),
        }
    }

    /// A copy of the member `key`, where `null` counts as absent.
    pub fn present(&self, key: &str) -> (r: Option<Json>)
        ensures
            match r {
                Some(v) => self@.present(key@) == Some(v@),
                None => self@.present(key@) is None,
            },
    {
        match self.get(key) {
            None => None,
            Some(Json::Null) => None,
            Some(v) => Some(v.duplicate()),
        }
    }

    /// The value of the member `key`, a whole number that fits 32 bits with
    /// a sign, which must be there.
    pub fn required_i32_member(&self, key: &str) -> (r: Result<i32, String>)
        ensures
            match r {
                Ok(n) => self@.required_integer_member(key@, i32::MIN as int, i32::MAX as int)
                    == Ok::<int, Seq<char>>(n as int),
                Err(e) => self@.required_integer_member(key@, i32::MIN as int, i32::MAX as int)
                    == Err::<int, Seq<char>>(e@),
            },
    {
        match self.get(key) {
            None => Err(missing_member(key)),
            Some(Json::Integer(n)) => {
                if -0x8000_0000 <= *n && *n <= 0x7FFF_FFFF {
                    Ok(*n as i32)
                } else {
                    Err(invalid_member(key))
                }
            },
            Some(_) => Err(invalid_member(key)),
        }
    }

    /// The document of an optional document: itself, or `null`.
    pub fn optional(doc: &Option<Json>) -> (r: Json)
        ensures
            r@ == match *doc {
                Some(d) => d@,
                None => JsonModel::Null,
            },
    {
        match doc {
            Some(d) => d.duplicate(),
            None => Json::Null,
        }
    }

    /// The value of a number document.
    pub fn as_number(&self) -> (r: Option<Number>)
        ensures
            match r {
                Some(n) => self@.number() == Some(n@),
                None => self@.number() is None,
            },
    {
        match self {
            Json::Integer(n) => Some(Number::Integer(*n)),
            Json::Real(s) => Some(Number::Real(s.clone())),
            _ => None,
        }
    }

    /// The number of the member `key`, which must be there.
    pub fn required_number_member(&self, key: &str) -> (r: Result<Number, String>)
        ensures
            match r {
                Ok(n) => self@.required_number_member(key@) == Ok::<NumberModel, Seq<char>>(n@),
                Err(e) => self@.required_number_member(key@) == Err::<NumberModel, Seq<char>>(
                    e@,
                ),
            },
    {
        match self.get(key) {
            None => Err(missing_member(key)),
            Some(v) => match v.as_number() {
                Some(n) => Ok(n),
                None => Err(invalid_member(key)),
            },
        }
    }

    /// The texts of an array of strings.
    pub fn as_texts(&self) -> (r: Option<Vec<String>>)
        ensures
            match r {
                Some(v) => self@.texts() == Some(texts_view(v@)),
                None => self@.texts() is None,
            },
    {
        match self {
            Json::Array(items) => {
                proof {
                    lemma_array_view(*items);
                }
                let ghost models = items_view(items@);
                let mut out: Vec<String> = Vec::new();
                let mut i: usize = 0;
                while i < items.len()
                    invariant
                        i <= items.len(),
                        models == items_view(items@),
                        self@ == JsonModel::Array(models),
                        out@.len() == i,
                        forall|k: int| 0 <= k < i ==> (#[trigger] models[k]) is Text,
                        forall|k: int| 0 <= k < i ==> out@[k]@ == models[k]->Text_0,
                    decreases items.len() - i,
                {
                    match &items[i] {
                        Json::Text(s) => {
                            out.push(s.clone());
                        },
                        _ => {
                            assert(!(models[i as int] is Text));
                            return None;
                        },
                    }
                    i += 1;
                }
                assert(texts_view(out@) =~= Seq::new(models.len(), |k: int| models[k]->Text_0));
                Some(out)
            },
            _ => None,
        }
    }

    /// The texts of the member `key`, an array of strings, which must be
    /// there.
    pub fn required_texts_member(&self, key: &str) -> (r: Result<Vec<String>, String>)
        ensures
            is_texts(r, self@.required_texts_member(key@)),
    {
        match self.get(key) {
            None => Err(missing_member(key)),
            Some(v) => match v.as_texts() {
                Some(t) => Ok(t),
                None => Err(invalid_member(key)),
            },
        }
    }

    /// The member `key` of an object.
    pub fn get(&self, key: &str) -> (r: Option<&Json>)
        ensures
            match r {
                Some(v) => self@.field(key@) == Some(v@),
                None => self@.field(key@) is None,
            },
    {
        match self {
            Json::Object(members) => {
                proof {
                    lemma_object_view(*members);
                }
                let mut i: usize = 0;
                while i < members.len()
                    invariant
                        i <= members.len(),
                        self@.field(key@) == find_member(members_view(members@), key@, i as int),
                    decreases members.len() - i,
                {
                    if crate::text::same_text(members[i].0.as_str(), key) {
                        return Some(&members[i].1);
                    }
                    i += 1;
                }
                None
            },
            _ => None,
        }
    }

    /// The text of a string document.
    pub fn as_str(&self) -> (r: Option<&str>)
        ensures
            match r {
                Some(s) => self@.text() == Some(s@),
                None => self@.text() is None,
            },
    {
        match self {
            Json::Text(s) => Some(s.as_str()),
            _ => None,
        }
    }

    /// The value of a boolean document.
    pub fn as_bool(&self) -> (r: Option<bool>)
        ensures
            r == self@.flag(),
    {
        match self {
            Json::Bool(b) => Some(*b),
            _ => None,
        }
    }

    /// The text of the member `key`, where it is a string.
    pub fn text_field(&self, key: &str) -> (r: Option<String>)
        ensures
            match r {
                Some(s) => self@.text_field(key@) == Some(s@),
                None => self@.text_field(key@) is None,
            },
    {
        match self.get(key) {
            Some(v) => match v.as_str() {
                Some(s) => Some(String::from_str(s)),
                None => None,
            },
            None => None,
        }
    }

    /// The value of the member `key`, where it is a boolean.
    pub fn flag_field(&self, key: &str) -> (r: Option<bool>)
        ensures
            r == self@.flag_field(key@),
    {
        match self.get(key) {
            Some(v) => v.as_bool(),
            None => None,
        }
    }

    /// A copy of the document.
    pub fn duplicate(&self) -> (r: Json)
        ensures
            r@ == self@,
        decreases self,
    {
        match self {
            Json::Null => Json::Null,
            Json::Bool(b) => Json::Bool(*b),
            Json::Integer(n) => Json::Integer(*n),
            Json::Real(s) => Json::Real(s.clone()),
            Json::Text(s) => Json::Text(s.clone()),
            Json::Array(items) => {
                let mut out: Vec<Json> = Vec::new();
                let mut i: usize = 0;
                while i < items.len()
                    invariant
                        i <= items.len(),
                        *self == Json::Array(*items),
                        out@.len() == i,
                        forall|k: int| 0 <= k < i ==> out@[k]@ == items@[k]@,
                    decreases items.len() - i,
                {
                    proof {
                        broadcast use vstd::std_specs::vec::group_vec_axioms;
                        assert(decreases_to!(*self => self->Array_0));
                    }
                    let copy = items[i].duplicate();
                    out.push(copy);
                    i += 1;
                }
                proof {
                    lemma_array_view(*items);
                    lemma_array_view(out);
                    assert(items_view(out@) =~= items_view(items@));
                }
                Json::Array(out)
            },
            Json::Object(members) => {
                let mut out: Vec<(String, Json)> = Vec::new();
                let mut i: usize = 0;
                while i < members.len()
                    invariant
                        i <= members.len(),
                        *self == Json::Object(*members),
                        out@.len() == i,
                        forall|k: int|
                            0 <= k < i ==> out@[k].0@ == members@[k].0@ && out@[k].1@
                                == members@[k].1@,
                    decreases members.len() - i,
                {
                    proof {
                        broadcast use vstd::std_specs::vec::group_vec_axioms;
                        assert(decreases_to!(*self => self->Object_0));
                    }
                    let copy = members[i].1.duplicate();
                    out.push((members[i].0.clone(), copy));
                    i += 1;
                }
                proof {
                    lemma_object_view(*members);
                    lemma_object_view(out);
                    assert(members_view(out@) =~= members_view(members@));
                }
                Json::Object(out)
            },
        }
    }

    /// The string document that holds `s`.
    pub fn text(s: &str) -> (r: Json)
        ensures
            r@ == JsonModel::Text(s@),
    {
        Json::Text(String::from_str(s))
    }

    /// The string document that holds `s`, or `null` where there is none.
    pub fn optional_text(s: &Option<String>) -> (r: Json)
        ensures
            r@ == match *s {
                Some(t) => JsonModel::Text(t@),
                None => JsonModel::Null,
            },
    {
        match s {
            Some(t) => Json::Text(t.clone()),
            None => Json::Null,
        }
    }

    /// The array of the documents in `items`.
    pub fn array(items: Vec<Json>) -> (r: Json)
        ensures
            r@ == JsonModel::Array(items_view(items@)),
    {
        proof {
            lemma_array_view(items);
        }
        Json::Array(items)
    }
}

impl Clone for Json {
    fn clone(&self) -> (r: Self)
        ensures
            r@ == self@,
    {
        self.duplicate()
    }
}

/// An object under construction: members are added at the end.
pub struct ObjectBuilder {
    members: Vec<(String, Json)>,
}

impl View for ObjectBuilder {
    type V = Seq<(Seq<char>, JsonModel)>;

    closed spec fn view(&self) -> Seq<(Seq<char>, JsonModel)> {
        members_view(self.members@)
    }
}

impl ObjectBuilder {
    /// The builder of an object without members.
    pub fn new() -> (r: Self)
        ensures
            r@ == Seq::<(Seq<char>, JsonModel)>::empty(),
    {
        let r = ObjectBuilder { members: Vec::new() };
        assert(r@ =~= Seq::<(Seq<char>, JsonModel)>::empty());
        r
    }

    /// Adds the member `key` with the value `value`.
    pub fn member(self, key: &str, value: Json) -> (r: Self)
        ensures
            r@ == self@.push((key@, value@)),
    {
        let mut members = self.members;
        members.push((String::from_str(key), value));
        let r = ObjectBuilder { members };
        assert(r@ =~= self@.push((key@, value@)));
        r
    }

    /// The object that holds the members added so far.
    pub fn build(self) -> (r: Json)
        ensures
            r@ == JsonModel::Object(self@),
    {
        proof {
            lemma_object_view(self.members);
        }
        Json::Object(self.members)
    }
}

} // verus!
