//! Utilities for migrating data in stable storage across upgrades.
//!
//! Content is decoded under the schema version that it was stored with. Each helper below
//! decides, from that version and the version at which a field changed, which decoder runs
//! for the field, and marks any error with the tag of the field.

use crate::text::{push_decimal, spec_decimal};
use vstd::prelude::*;
use vstd::string::StringExecFns;

verus! {

/// The schema version of the content that is being decoded.
#[derive(Debug, Clone, Copy)]
pub struct MigrationContext {
    stored_schema_version: u64,
}

impl MigrationContext {
    /// The schema version that the content was stored with.
    pub closed spec fn version(&self) -> u64 {
        self.stored_schema_version
    }

    /// The context of content stored with schema version `version`.
    pub fn new(version: u64) -> (r: Self)
        ensures
            r.version() == version,
    {
        MigrationContext { stored_schema_version: version }
    }
}

impl Default for MigrationContext {
    fn default() -> (r: Self)
        ensures
            r.version() == 0,
    {
        MigrationContext { stored_schema_version: 0 }
    }
}

/// Set the schema version that content is decoded under.
pub fn set_stored_schema_version(context: &mut MigrationContext, version: u64)
    ensures
        final(context).version() == version,
{
    context.stored_schema_version = version;
}

/// The schema version that content is decoded under.
pub fn get_stored_schema_version(context: &MigrationContext) -> (version: u64)
    ensures
        version == context.version(),
{
    context.stored_schema_version
}

/// An error of a field's decoder, marked with the tag of the field.
#[derive(Debug)]
pub struct MigrationError<E> {
    /// The tag of the field that could not be decoded.
    pub debug_tag: u32,
    /// The error as the decoder gave it.
    pub source: E,
}

/// The text of a migration error for the field tagged `debug_tag`, where the decoder's error
/// reads `source`.
pub open spec fn spec_message(debug_tag: u32, source: Seq<char>) -> Seq<char> {
    "Migration error. Tag "@ + spec_decimal(debug_tag as nat) + " Error: "@ + source
}

impl<E> MigrationError<E> {
    /// The text of this error, where the decoder's error reads `source`.
    pub fn message(&self, source: &str) -> (text: String)
        ensures
            text@ == spec_message(self.debug_tag, source@),
    {
        let mut text = String::from_str("Migration error. Tag ");
        push_decimal(&mut text, self.debug_tag as u64);
        text.append(" Error: ");
        text.append(source);
        text
    }
}

/// The outcome of a field's decoder with its error, if any, marked with `debug_tag`.
pub open spec fn spec_tagged<T, E>(outcome: Result<T, E>, debug_tag: u32) -> Result<
    T,
    MigrationError<E>,
> {
    match outcome {
        Ok(value) => Ok(value),
        Err(source) => Err(MigrationError { debug_tag, source }),
    }
}

/// Mark the error of a decoder's outcome with `debug_tag`.
pub fn tagged<T, E>(outcome: Result<T, E>, debug_tag: u32) -> (r: Result<T, MigrationError<E>>)
    ensures
        r == spec_tagged(outcome, debug_tag),
{
    match outcome {
        Ok(value) => Ok(value),
        Err(source) => Err(MigrationError { debug_tag, source }),
    }
}

/// Whether `r` is what `decode` can return on `deserializer`, with its error marked.
pub open spec fn decoded_by<D, T, E, F: FnOnce(D) -> Result<T, E>>(
    decode: F,
    deserializer: D,
    debug_tag: u32,
    r: Result<T, MigrationError<E>>,
) -> bool {
    exists|outcome: Result<T, E>|
        #![trigger decode.ensures((deserializer,), outcome)]
        decode.ensures((deserializer,), outcome) && r == spec_tagged(outcome, debug_tag)
}

/// Deserialize to a default value if the stored schema version is less than `VERSION`.
/// This allows adding new fields to the end of structures: content stored before `VERSION`
/// does not hold the field, so nothing is decoded for it.
pub fn deserialize_default_if_lt_version<
    const VERSION: u64,
    const DEBUG_TAG: u32,
    T: Default,
    D,
    E,
    F: FnOnce(D) -> Result<T, E>,
>(context: &MigrationContext, deserializer: D, decode: F) -> (r: Result<T, MigrationError<E>>)
    requires
        context.version() >= VERSION ==> decode.requires((deserializer,)),
    ensures
        context.version() < VERSION ==> r is Ok && call_ensures(T::default, (), r->Ok_0),
        context.version() >= VERSION ==> decoded_by(decode, deserializer, DEBUG_TAG, r),
{
    if get_stored_schema_version(context) < VERSION {
        Ok(T::default())
    } else {
        tagged(decode(deserializer), DEBUG_TAG)
    }
}

/// Deserialize to a default value if the stored schema version is `VERSION` or later.
/// This is for fields that are no longer written from `VERSION` on: older content still
/// holds the field, which is decoded.
pub fn deserialize_default_if_gte_version<
    const VERSION: u64,
    const DEBUG_TAG: u32,
    T: Default,
    D,
    E,
    F: FnOnce(D) -> Result<T, E>,
>(context: &MigrationContext, deserializer: D, decode: F) -> (r: Result<T, MigrationError<E>>)
    requires
        context.version() < VERSION ==> decode.requires((deserializer,)),
    ensures
        context.version() >= VERSION ==> r is Ok && call_ensures(T::default, (), r->Ok_0),
        context.version() < VERSION ==> decoded_by(decode, deserializer, DEBUG_TAG, r),
{
    if get_stored_schema_version(context) >= VERSION {
        Ok(T::default())
    } else {
        tagged(decode(deserializer), DEBUG_TAG)
    }
}

/// Whether a field that is dropped at `VERSION` is left out of what is written under the
/// schema version of `context`: it is, from `VERSION` on. Content that was written so is
/// read back by `deserialize_default_if_gte_version`, which decodes the field exactly where
/// it was written.
pub fn skip_serializing_if_gte_version<const VERSION: u64>(context: &MigrationContext) -> (r: bool)
    ensures
        r == (context.version() >= VERSION),
{
    get_stored_schema_version(context) >= VERSION
}

/// Deserialize using one method if the stored schema version is less than `VERSION`,
/// or another method if the stored version is greater than or equal to `VERSION`.
pub fn deserialize_if_lt_version_or_else<
    const VERSION: u64,
    const DEBUG_TAG: u32,
    T,
    D,
    E,
    PreVersionFunc: FnOnce(D) -> Result<T, E>,
    PostVersionFunc: FnOnce(D) -> Result<T, E>,
>(
    context: &MigrationContext,
    deserializer: D,
    pre_version_func: PreVersionFunc,
    post_version_func: PostVersionFunc,
) -> (r: Result<T, MigrationError<E>>)
    requires
        context.version() < VERSION ==> pre_version_func.requires((deserializer,)),
        context.version() >= VERSION ==> post_version_func.requires((deserializer,)),
    ensures
        context.version() < VERSION ==> decoded_by(pre_version_func, deserializer, DEBUG_TAG, r),
        context.version() >= VERSION ==> decoded_by(
            post_version_func,
            deserializer,
            DEBUG_TAG,
            r,
        ),
{
    if get_stored_schema_version(context) < VERSION {
        tagged(pre_version_func(deserializer), DEBUG_TAG)
    } else {
        tagged(post_version_func(deserializer), DEBUG_TAG)
    }
}

/// Deserialize with the error, if any, marked with `DEBUG_TAG`.
pub fn deserialize_with_debug_tag<const DEBUG_TAG: u32, T, D, E, F: FnOnce(D) -> Result<T, E>>(
    deserializer: D,
    decode: F,
) -> (r: Result<T, MigrationError<E>>)
    requires
        decode.requires((deserializer,)),
    ensures
        decoded_by(decode, deserializer, DEBUG_TAG, r),
{
    tagged(decode(deserializer), DEBUG_TAG)
}

/// Whether `to` holds, place by place, what `convert` can return on the items of `from`.
pub open spec fn converted_each<O, T, C: Fn(O) -> T>(convert: C, from: Seq<O>, to: Seq<T>) -> bool {
    &&& from.len() == to.len()
    &&& forall|i: int| 0 <= i < from.len() ==> call_ensures(convert, (from[i],), #[trigger] to[i])
}

/// Convert every item, keeping the order.
pub fn convert_all<O, T, C: Fn(O) -> T>(items: Vec<O>, convert: &C) -> (r: Vec<T>)
    requires
        forall|o: O| call_requires(*convert, (o,)),
    ensures
        converted_each(*convert, items@, r@),
{
    let ghost from = items@;
    let mut items = items;
    let mut backwards: Vec<T> = Vec::new();
    while items.len() > 0
        invariant
            forall|o: O| call_requires(*convert, (o,)),
            items@.len() <= from.len(),
            items@ == from.take(items@.len() as int),
            backwards@.len() == from.len() - items@.len(),
            forall|k: int|
                0 <= k < backwards@.len() ==> call_ensures(
                    *convert,
                    (from[from.len() - 1 - k],),
                    #[trigger] backwards@[k],
                ),
        decreases items@.len(),
    {
        let ghost before = items@;
        let item = items.pop().unwrap();
        assert(item == from[before.len() - 1]);
        let converted = convert(item);
        backwards.push(converted);
        assert(items@ =~= from.take(items@.len() as int));
    }
    let ghost reversed = backwards@;
    let mut out: Vec<T> = Vec::new();
    while backwards.len() > 0
        invariant
            reversed.len() == from.len(),
            backwards@.len() <= reversed.len(),
            backwards@ == reversed.take(backwards@.len() as int),
            out@.len() == reversed.len() - backwards@.len(),
            forall|k: int| 0 <= k < out@.len() ==> #[trigger] out@[k] == reversed[reversed.len() - 1 - k],
        decreases backwards@.len(),
    {
        let ghost before = backwards@;
        let converted = backwards.pop().unwrap();
        assert(converted == reversed[before.len() - 1]);
        out.push(converted);
        assert(backwards@ =~= reversed.take(backwards@.len() as int));
    }
    assert forall|i: int| 0 <= i < from.len() implies call_ensures(
        *convert,
        (from[i],),
        #[trigger] out@[i],
    ) by {
        let k = from.len() - 1 - i;
        assert(out@[i] == reversed[k]);
    }
    out
}

/// Whether `r` is what decoding a collection with `decode_old` and converting each item with
/// `convert` can give, with the decoder's error marked.
pub open spec fn decoded_and_converted_each<D, O, T, E, Old: FnOnce(D) -> Result<Vec<O>, E>, C: Fn(O) -> T>(
    decode_old: Old,
    convert: C,
    deserializer: D,
    debug_tag: u32,
    r: Result<Vec<T>, MigrationError<E>>,
) -> bool {
    exists|outcome: Result<Vec<O>, E>|
        #![trigger decode_old.ensures((deserializer,), outcome)]
        decode_old.ensures((deserializer,), outcome) && match outcome {
            Ok(items) => r is Ok && converted_each(convert, items@, r->Ok_0@),
            Err(source) => r == Err::<Vec<T>, MigrationError<E>>(
                MigrationError { debug_tag, source },
            ),
        }
}

/// Whether `r` is what decoding with `decode_old` and converting with `convert` can give,
/// with the decoder's error marked.
pub open spec fn decoded_and_converted<D, O, T, E, Old: FnOnce(D) -> Result<O, E>, C: FnOnce(O) -> T>(
    decode_old: Old,
    convert: C,
    deserializer: D,
    debug_tag: u32,
    r: Result<T, MigrationError<E>>,
) -> bool {
    exists|outcome: Result<O, E>|
        #![trigger decode_old.ensures((deserializer,), outcome)]
        decode_old.ensures((deserializer,), outcome) && match outcome {
            Ok(item) => r is Ok && call_ensures(convert, (item,), r->Ok_0),
            Err(source) => r == Err::<T, MigrationError<E>>(MigrationError { debug_tag, source }),
        }
}

/// Deserialize into a vector of another primitive type if the stored schema version is less
/// than `VERSION`: the collection is decoded as it was stored and each item is converted.
pub fn deserialize_into_primitive_collection_if_lt_version<
    const VERSION: u64,
    const DEBUG_TAG: u32,
    O: Copy,
    T: Copy,
    D,
    E,
    Old: FnOnce(D) -> Result<Vec<O>, E>,
    C: Fn(O) -> T,
    New: FnOnce(D) -> Result<Vec<T>, E>,
>(
    context: &MigrationContext,
    deserializer: D,
    decode_old: Old,
    convert: C,
    decode_new: New,
) -> (r: Result<Vec<T>, MigrationError<E>>)
    requires
        context.version() < VERSION ==> decode_old.requires((deserializer,)),
        context.version() < VERSION ==> forall|o: O| call_requires(convert, (o,)),
        context.version() >= VERSION ==> decode_new.requires((deserializer,)),
    ensures
        context.version() < VERSION ==> decoded_and_converted_each(
            decode_old,
            convert,
            deserializer,
            DEBUG_TAG,
            r,
        ),
        context.version() >= VERSION ==> decoded_by(decode_new, deserializer, DEBUG_TAG, r),
{
    if get_stored_schema_version(context) < VERSION {
        match decode_old(deserializer) {
            Ok(items) => Ok(convert_all(items, &convert)),
            Err(source) => Err(MigrationError { debug_tag: DEBUG_TAG, source }),
        }
    } else {
        tagged(decode_new(deserializer), DEBUG_TAG)
    }
}

/// Deserialize into an option of another primitive type if the stored schema version is less
/// than `VERSION`: the option is decoded as it was stored and its value, if any, converted.
pub fn deserialize_into_primitive_option_if_lt_version<
    const VERSION: u64,
    const DEBUG_TAG: u32,
    O: Copy,
    T: Copy,
    D,
    E,
    Old: FnOnce(D) -> Result<Option<O>, E>,
    C: FnOnce(O) -> T,
    New: FnOnce(D) -> Result<Option<T>, E>,
>(
    context: &MigrationContext,
    deserializer: D,
    decode_old: Old,
    convert: C,
    decode_new: New,
) -> (r: Result<Option<T>, MigrationError<E>>)
    requires
        context.version() < VERSION ==> decode_old.requires((deserializer,)),
        context.version() < VERSION ==> forall|o: O| call_requires(convert, (o,)),
        context.version() >= VERSION ==> decode_new.requires((deserializer,)),
    ensures
        context.version() < VERSION ==> exists|outcome: Result<Option<O>, E>|
            #![trigger decode_old.ensures((deserializer,), outcome)]
            decode_old.ensures((deserializer,), outcome) && match outcome {
                Ok(Some(item)) => r is Ok && r->Ok_0 is Some && call_ensures(
                    convert,
                    (item,),
                    r->Ok_0->Some_0,
                ),
                Ok(None) => r is Ok && r->Ok_0 is None,
                Err(source) => r == Err::<Option<T>, MigrationError<E>>(
                    MigrationError { debug_tag: DEBUG_TAG, source },
                ),
            },
        context.version() >= VERSION ==> decoded_by(decode_new, deserializer, DEBUG_TAG, r),
{
    if get_stored_schema_version(context) < VERSION {
        match decode_old(deserializer) {
            Ok(Some(item)) => Ok(Some(convert(item))),
            Ok(None) => Ok(None),
            Err(source) => Err(MigrationError { debug_tag: DEBUG_TAG, source }),
        }
    } else {
        tagged(decode_new(deserializer), DEBUG_TAG)
    }
}

/// Deserialize into another primitive type if the stored schema version is less than
/// `VERSION`: the value is decoded as it was stored and converted.
pub fn deserialize_into_primitive_if_lt_version<
    const VERSION: u64,
    const DEBUG_TAG: u32,
    O: Copy,
    T: Copy,
    D,
    E,
    Old: FnOnce(D) -> Result<O, E>,
    C: FnOnce(O) -> T,
    New: FnOnce(D) -> Result<T, E>,
>(
    context: &MigrationContext,
    deserializer: D,
    decode_old: Old,
    convert: C,
    decode_new: New,
) -> (r: Result<T, MigrationError<E>>)
    requires
        context.version() < VERSION ==> decode_old.requires((deserializer,)),
        context.version() < VERSION ==> forall|o: O| call_requires(convert, (o,)),
        context.version() >= VERSION ==> decode_new.requires((deserializer,)),
    ensures
        context.version() < VERSION ==> decoded_and_converted(
            decode_old,
            convert,
            deserializer,
            DEBUG_TAG,
            r,
        ),
        context.version() >= VERSION ==> decoded_by(decode_new, deserializer, DEBUG_TAG, r),
{
    if get_stored_schema_version(context) < VERSION {
        match decode_old(deserializer) {
            Ok(item) => Ok(convert(item)),
            Err(source) => Err(MigrationError { debug_tag: DEBUG_TAG, source }),
        }
    } else {
        tagged(decode_new(deserializer), DEBUG_TAG)
    }
}

/// Whether `to` holds, place by place, what `T::from` can return on the items of `from`.
pub open spec fn each_from<O, T: From<O>>(from: Seq<O>, to: Seq<T>) -> bool {
    &&& from.len() == to.len()
    &&& forall|i: int| 0 <= i < from.len() ==> call_ensures(T::from, (from[i],), #[trigger] to[i])
}

/// Deserialize into a vector of another type if the stored schema version is less than
/// `VERSION`: the collection is decoded as it was stored and each item turned into a `T`.
pub fn deserialize_into_collection_if_lt_version<
    const VERSION: u64,
    const DEBUG_TAG: u32,
    O,
    T: From<O>,
    D,
    E,
    Old: FnOnce(D) -> Result<Vec<O>, E>,
    New: FnOnce(D) -> Result<Vec<T>, E>,
>(context: &MigrationContext, deserializer: D, decode_old: Old, decode_new: New) -> (r: Result<
    Vec<T>,
    MigrationError<E>,
>)
    requires
        context.version() < VERSION ==> decode_old.requires((deserializer,)),
        context.version() >= VERSION ==> decode_new.requires((deserializer,)),
    ensures
        context.version() < VERSION ==> exists|outcome: Result<Vec<O>, E>|
            #![trigger decode_old.ensures((deserializer,), outcome)]
            decode_old.ensures((deserializer,), outcome) && match outcome {
                Ok(items) => r is Ok && each_from::<O, T>(items@, r->Ok_0@),
                Err(source) => r == Err::<Vec<T>, MigrationError<E>>(
                    MigrationError { debug_tag: DEBUG_TAG, source },
                ),
            },
        context.version() >= VERSION ==> decoded_by(decode_new, deserializer, DEBUG_TAG, r),
{
    if get_stored_schema_version(context) < VERSION {
        match decode_old(deserializer) {
            Ok(items) => {
                let into = |item: O| -> (t: T)
                    ensures
                        call_ensures(T::from, (item,), t),
                    { T::from(item) };
                Ok(convert_all(items, &into))
            },
            Err(source) => Err(MigrationError { debug_tag: DEBUG_TAG, source }),
        }
    } else {
        tagged(decode_new(deserializer), DEBUG_TAG)
    }
}

/// Deserialize into another type if the stored schema version is less than `VERSION`: the
/// value is decoded as it was stored and turned into a `T`.
pub fn deserialize_into_if_lt_version<
    const VERSION: u64,
    const DEBUG_TAG: u32,
    O,
    T: From<O>,
    D,
    E,
    Old: FnOnce(D) -> Result<O, E>,
    New: FnOnce(D) -> Result<T, E>,
>(context: &MigrationContext, deserializer: D, decode_old: Old, decode_new: New) -> (r: Result<
    T,
    MigrationError<E>,
>)
    requires
        context.version() < VERSION ==> decode_old.requires((deserializer,)),
        context.version() >= VERSION ==> decode_new.requires((deserializer,)),
    ensures
        context.version() < VERSION ==> exists|outcome: Result<O, E>|
            #![trigger decode_old.ensures((deserializer,), outcome)]
            decode_old.ensures((deserializer,), outcome) && match outcome {
                Ok(item) => r is Ok && call_ensures(T::from, (item,), r->Ok_0),
                Err(source) => r == Err::<T, MigrationError<E>>(
                    MigrationError { debug_tag: DEBUG_TAG, source },
                ),
            },
        context.version() >= VERSION ==> decoded_by(decode_new, deserializer, DEBUG_TAG, r),
{
    if get_stored_schema_version(context) < VERSION {
        match decode_old(deserializer) {
            Ok(item) => Ok(T::from(item)),
            Err(source) => Err(MigrationError { debug_tag: DEBUG_TAG, source }),
        }
    } else {
        tagged(decode_new(deserializer), DEBUG_TAG)
    }
}

/// Deserialize into another type by a conversion that can fail if the stored schema version
/// is less than `VERSION`: the value is decoded as it was stored and converted, and an error
/// of either step is marked.
pub fn deserialize_try_into_if_lt_version<
    const VERSION: u64,
    const DEBUG_TAG: u32,
    O,
    T,
    D,
    E,
    Old: FnOnce(D) -> Result<O, E>,
    C: FnOnce(O) -> Result<T, E>,
    New: FnOnce(D) -> Result<T, E>,
>(
    context: &MigrationContext,
    deserializer: D,
    decode_old: Old,
    try_convert: C,
    decode_new: New,
) -> (r: Result<T, MigrationError<E>>)
    requires
        context.version() < VERSION ==> decode_old.requires((deserializer,)),
        context.version() < VERSION ==> forall|o: O| call_requires(try_convert, (o,)),
        context.version() >= VERSION ==> decode_new.requires((deserializer,)),
    ensures
        context.version() < VERSION ==> exists|outcome: Result<O, E>|
            #![trigger decode_old.ensures((deserializer,), outcome)]
            decode_old.ensures((deserializer,), outcome) && match outcome {
                Ok(item) => exists|converted: Result<T, E>|
                    #![trigger call_ensures(try_convert, (item,), converted)]
                    call_ensures(try_convert, (item,), converted) && r == spec_tagged(
                        converted,
                        DEBUG_TAG,
                    ),
                Err(source) => r == Err::<T, MigrationError<E>>(
                    MigrationError { debug_tag: DEBUG_TAG, source },
                ),
            },
        context.version() >= VERSION ==> decoded_by(decode_new, deserializer, DEBUG_TAG, r),
{
    if get_stored_schema_version(context) < VERSION {
        match decode_old(deserializer) {
            Ok(item) => tagged(try_convert(item), DEBUG_TAG),
            Err(source) => Err(MigrationError { debug_tag: DEBUG_TAG, source }),
        }
    } else {
        tagged(decode_new(deserializer), DEBUG_TAG)
    }
}

/// Deserialize into a vector of strings if the stored schema version is less than `VERSION`:
/// the collection is decoded as it was stored and each item turned into its text.
pub fn deserialize_into_string_collection_if_lt_version<
    const VERSION: u64,
    const DEBUG_TAG: u32,
    O,
    D,
    E,
    Old: FnOnce(D) -> Result<Vec<O>, E>,
    C: Fn(O) -> String,
    New: FnOnce(D) -> Result<Vec<String>, E>,
>(
    context: &MigrationContext,
    deserializer: D,
    decode_old: Old,
    to_string: C,
    decode_new: New,
) -> (r: Result<Vec<String>, MigrationError<E>>)
    requires
        context.version() < VERSION ==> decode_old.requires((deserializer,)),
        context.version() < VERSION ==> forall|o: O| call_requires(to_string, (o,)),
        context.version() >= VERSION ==> decode_new.requires((deserializer,)),
    ensures
        context.version() < VERSION ==> decoded_and_converted_each(
            decode_old,
            to_string,
            deserializer,
            DEBUG_TAG,
            r,
        ),
        context.version() >= VERSION ==> decoded_by(decode_new, deserializer, DEBUG_TAG, r),
{
    if get_stored_schema_version(context) < VERSION {
        match decode_old(deserializer) {
            Ok(items) => Ok(convert_all(items, &to_string)),
            Err(source) => Err(MigrationError { debug_tag: DEBUG_TAG, source }),
        }
    } else {
        tagged(decode_new(deserializer), DEBUG_TAG)
    }
}

} // verus!
