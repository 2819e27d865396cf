//! Typed values stored in a request's context under string keys.

use vstd::prelude::*;
use crate::context::SpeconnContext;

verus! {

/// A value stored in a context, tagged with its type.
#[derive(Debug)]
pub enum ContextValue {
    Str(String),
    I64(i64),
    I32(i32),
    U64(u64),
    U32(u32),
    Bool(bool),
}

/// A type whose values can be stored in a context. A stored value reads
/// back only as the type it was stored as.
pub trait ContextType: Sized {
    /// The stored form of a value.
    spec fn stored(self) -> ContextValue;

    /// The value of this type that a stored value holds, if it holds one.
    spec fn read_back(v: ContextValue) -> Option<Self>;

    /// The stored form of `self`.
    fn into_value(self) -> (v: ContextValue)
        ensures
            v == self.stored(),
    ;

    /// The value of this type held by `v`, if any.
    fn from_value(v: &ContextValue) -> (r: Option<Self>)
        ensures
            r == Self::read_back(*v),
    ;

    /// A copy of `self`.
    fn duplicate(&self) -> (r: Self)
        ensures
            r == *self,
    ;

    /// A stored value reads back as itself.
    proof fn lemma_read_back_stored(x: Self)
        ensures
            Self::read_back(x.stored()) == Some(x),
    ;
}

impl ContextType for String {
    open spec fn stored(self) -> ContextValue {
        ContextValue::Str(self)
    }

    open spec fn read_back(v: ContextValue) -> Option<Self> {
        match v {
            ContextValue::Str(s) => Some(s),
            _ => None,
        }
    }

    fn into_value(self) -> (v: ContextValue) {
        ContextValue::Str(self)
    }

    fn from_value(v: &ContextValue) -> (r: Option<Self>) {
        match v {
            ContextValue::Str(s) => Some(s.clone()),
            _ => None,
        }
    }

    fn duplicate(&self) -> (r: Self) {
        self.clone()
    }

    proof fn lemma_read_back_stored(x: Self) {
    }
}

impl ContextType for i64 {
    open spec fn stored(self) -> ContextValue {
        ContextValue::I64(self)
    }

    open spec fn read_back(v: ContextValue) -> Option<Self> {
        match v {
            ContextValue::I64(n) => Some(n),
            _ => None,
        }
    }

    fn into_value(self) -> (v: ContextValue) {
        ContextValue::I64(self)
    }

    fn from_value(v: &ContextValue) -> (r: Option<Self>) {
        match v {
            ContextValue::I64(n) => Some(*n),
            _ => None,
        }
    }

    fn duplicate(&self) -> (r: Self) {
        *self
    }

    proof fn lemma_read_back_stored(x: Self) {
    }
}

impl ContextType for i32 {
    open spec fn stored(self) -> ContextValue {
        ContextValue::I32(self)
    }

    open spec fn read_back(v: ContextValue) -> Option<Self> {
        match v {
            ContextValue::I32(n) => Some(n),
            _ => None,
        }
    }

    fn into_value(self) -> (v: ContextValue) {
        ContextValue::I32(self)
    }

    fn from_value(v: &ContextValue) -> (r: Option<Self>) {
        match v {
            ContextValue::I32(n) => Some(*n),
            _ => None,
        }
    }

    fn duplicate(&self) -> (r: Self) {
        *self
    }

    proof fn lemma_read_back_stored(x: Self) {
    }
}

impl ContextType for u64 {
    open spec fn stored(self) -> ContextValue {
        ContextValue::U64(self)
    }

    open spec fn read_back(v: ContextValue) -> Option<Self> {
        match v {
            ContextValue::U64(n) => Some(n),
            _ => None,
        }
    }

    fn into_value(self) -> (v: ContextValue) {
        ContextValue::U64(self)
    }

    fn from_value(v: &ContextValue) -> (r: Option<Self>) {
        match v {
            ContextValue::U64(n) => Some(*n),
            _ => None,
        }
    }

    fn duplicate(&self) -> (r: Self) {
        *self
    }

    proof fn lemma_read_back_stored(x: Self) {
    }
}

impl ContextType for u32 {
    open spec fn stored(self) -> ContextValue {
        ContextValue::U32(self)
    }

    open spec fn read_back(v: ContextValue) -> Option<Self> {
        match v {
            ContextValue::U32(n) => Some(n),
            _ => None,
        }
    }

    fn into_value(self) -> (v: ContextValue) {
        ContextValue::U32(self)
    }

    fn from_value(v: &ContextValue) -> (r: Option<Self>) {
        match v {
            ContextValue::U32(n) => Some(*n),
            _ => None,
        }
    }

    fn duplicate(&self) -> (r: Self) {
        *self
    }

    proof fn lemma_read_back_stored(x: Self) {
    }
}

impl ContextType for bool {
    open spec fn stored(self) -> ContextValue {
        ContextValue::Bool(self)
    }

    open spec fn read_back(v: ContextValue) -> Option<Self> {
        match v {
            ContextValue::Bool(b) => Some(b),
            _ => None,
        }
    }

    fn into_value(self) -> (v: ContextValue) {
        ContextValue::Bool(self)
    }

    fn from_value(v: &ContextValue) -> (r: Option<Self>) {
        match v {
            ContextValue::Bool(b) => Some(*b),
            _ => None,
        }
    }

    fn duplicate(&self) -> (r: Self) {
        *self
    }

    proof fn lemma_read_back_stored(x: Self) {
    }
}

/// A key for values of type `T`, with the value read when none is stored.
pub struct ContextKey<T> {
    pub id: String,
    pub default_value: T,
}

impl<T> ContextKey<T> {
    /// A key named `id` whose reads default to `default_value`.
    pub fn new(id: String, default_value: T) -> (k: Self)
        ensures
            k.id == id,
            k.default_value == default_value,
    {
        ContextKey { id, default_value }
    }
}

/// What reading key `id` of type `T` gives from the stored `values`: the
/// stored value when one of type `T` is there, else `default`.
pub open spec fn lookup_value<T: ContextType>(
    values: Map<Seq<char>, ContextValue>,
    id: Seq<char>,
    default: T,
) -> T {
    if values.contains_key(id) && T::read_back(values[id]) is Some {
        T::read_back(values[id])->Some_0
    } else {
        default
    }
}

/// What `get_user` and `get_request_id` read from `values` under `id`: a
/// stored string, else the empty string.
pub open spec fn lookup_string(values: Map<Seq<char>, ContextValue>, id: Seq<char>) -> Seq<char> {
    if values.contains_key(id) && values[id] is Str {
        values[id]->Str_0@
    } else {
        Seq::empty()
    }
}

/// Stores `value` under `key`, replacing what was stored there.
pub fn set_value<T: ContextType>(ctx: &mut SpeconnContext, key: &ContextKey<T>, value: T)
    ensures
        final(ctx).same_but_values(*old(ctx)),
        final(ctx).value_map()@ == old(ctx).value_map()@.insert(key.id@, value.stored()),
{
    let v = value.into_value();
    ctx.store_value(key.id.clone(), v);
}

/// The value of type `T` stored under `key`, or the key's default.
pub fn get_value<T: ContextType>(ctx: &SpeconnContext, key: &ContextKey<T>) -> (v: T)
    ensures
        v == lookup_value(ctx.value_map()@, key.id@, key.default_value),
{
    match ctx.value(key.id.as_str()) {
        Some(stored) => match T::from_value(stored) {
            Some(v) => v,
            None => key.default_value.duplicate(),
        },
        None => key.default_value.duplicate(),
    }
}

/// Removes what is stored under `key`.
pub fn delete_value<T: ContextType>(ctx: &mut SpeconnContext, key: &ContextKey<T>)
    ensures
        final(ctx).same_but_values(*old(ctx)),
        final(ctx).value_map()@ == old(ctx).value_map()@.remove(key.id@),
{
    ctx.remove_value(key.id.as_str());
}

fn get_string(ctx: &SpeconnContext, id: &str) -> (s: String)
    ensures
        s@ == lookup_string(ctx.value_map()@, id@),
{
    match ctx.value(id) {
        Some(ContextValue::Str(s)) => s.clone(),
        _ => String::new(),
    }
}

/// The user stored under `"user"`, or the empty string.
pub fn get_user(ctx: &SpeconnContext) -> (user: String)
    ensures
        user@ == lookup_string(ctx.value_map()@, "user"@),
{
    get_string(ctx, "user")
}

/// Stores `user` under `"user"`.
pub fn set_user(ctx: &mut SpeconnContext, user: String)
    ensures
        final(ctx).same_but_values(*old(ctx)),
        final(ctx).value_map()@ == old(ctx).value_map()@.insert("user"@, ContextValue::Str(user)),
{
    ctx.store_value("user".to_owned(), ContextValue::Str(user));
}

/// The request id stored under `"request-id"`, or the empty string.
pub fn get_request_id(ctx: &SpeconnContext) -> (id: String)
    ensures
        id@ == lookup_string(ctx.value_map()@, "request-id"@),
{
    get_string(ctx, "request-id")
}

/// Stores `id` under `"request-id"`.
pub fn set_request_id(ctx: &mut SpeconnContext, id: String)
    ensures
        final(ctx).same_but_values(*old(ctx)),
        final(ctx).value_map()@ == old(ctx).value_map()@.insert(
            "request-id"@,
            ContextValue::Str(id),
        ),
{
    ctx.store_value("request-id".to_owned(), ContextValue::Str(id));
}

/// The key of the user: `"user"`, defaulting to the empty string.
pub fn user_key() -> (k: ContextKey<String>)
    ensures
        k.id@ == "user"@,
        k.default_value@ == Seq::<char>::empty(),
{
    ContextKey::new("user".to_owned(), String::new())
}

/// The key of the request id: `"request-id"`, defaulting to the empty
/// string.
pub fn request_id_key() -> (k: ContextKey<String>)
    ensures
        k.id@ == "request-id"@,
        k.default_value@ == Seq::<char>::empty(),
{
    ContextKey::new("request-id".to_owned(), String::new())
}

/// The key of the numeric user id: `"user-id"`, defaulting to 0.
pub fn user_id_key() -> (k: ContextKey<i64>)
    ensures
        k.id@ == "user-id"@,
        k.default_value == 0,
{
    ContextKey::new("user-id".to_owned(), 0)
}

/// Reading a key after storing a value under it gives that value back.
pub proof fn lemma_get_after_set<T: ContextType>(
    values: Map<Seq<char>, ContextValue>,
    id: Seq<char>,
    default: T,
    x: T,
)
    ensures
        lookup_value(values.insert(id, x.stored()), id, default) == x,
{
    T::lemma_read_back_stored(x);
}

/// Reading a key after removing it gives the key's default.
pub proof fn lemma_get_after_delete<T: ContextType>(
    values: Map<Seq<char>, ContextValue>,
    id: Seq<char>,
    default: T,
)
    ensures
        lookup_value(values.remove(id), id, default) == default,
{
}

/// Storing under one key leaves what another key reads unchanged.
pub proof fn lemma_set_other_key<T: ContextType, U: ContextType>(
    values: Map<Seq<char>, ContextValue>,
    id: Seq<char>,
    other: Seq<char>,
    default: U,
    x: T,
)
    requires
        id != other,
    ensures
        lookup_value(values.insert(id, x.stored()), other, default) == lookup_value(
            values,
            other,
            default,
        ),
{
}

/// A string stored under `"user"` reads back through the user key as
/// `get_user` reads it: the two agree on every state whose default is the
/// empty string, as the user key's is.
pub proof fn lemma_user_key_agrees(values: Map<Seq<char>, ContextValue>, default: String)
    requires
        default@ == Seq::<char>::empty(),
    ensures
        lookup_value(values, "user"@, default)@ == lookup_string(values, "user"@),
        lookup_value(values, "request-id"@, default)@ == lookup_string(values, "request-id"@),
{
}

} // verus!
