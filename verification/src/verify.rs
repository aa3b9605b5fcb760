use vstd::prelude::*;
use crate::error::DTError;
use crate::schema::TypeConstraint;
use crate::schema::{
    find_constraint_for_event, find_constraint_for_user_event, is_preset_event, meta_constraint,
    spec_compulsory_metas, spec_is_preset_event, spec_meta_constraint, spec_track_constraint,
    spec_user_constraint,
};
use crate::text::{check_name, spec_valid_name, str_eq};
use crate::value::{slookup, vview, Object, SpecEntries, SpecValue, Value};

verus! {

broadcast use vstd::string::group_string_axioms;

/// Whether a value's runtime type satisfies a schema constraint.
/// Integers satisfy the wildcard `Number` as well as `Integer`;
/// floats satisfy `Number` as well as `Float`.
pub open spec fn spec_check_type(v: SpecValue, t: TypeConstraint) -> bool {
    match v {
        SpecValue::Str(_) => t is String,
        SpecValue::Bool(_) => t is Bool,
        SpecValue::Obj(_) => t is Object,
        SpecValue::Arr(_) => t is Array,
        SpecValue::Int(_) => t is Number || t is Integer,
        SpecValue::Float(_) => t is Number || t is Float,
        SpecValue::Null => false,
    }
}

pub fn check_type_constraint(value: &Value, target: &TypeConstraint) -> (r: bool)
    ensures
        r == spec_check_type(value@, *target),
{
    match value {
        Value::Str(_) => *target == TypeConstraint::String,
        Value::Bool(_) => *target == TypeConstraint::Bool,
        Value::Obj(_) => *target == TypeConstraint::Object,
        Value::Arr(_) => *target == TypeConstraint::Array,
        Value::Int(_) => *target == TypeConstraint::Number || *target == TypeConstraint::Integer,
        Value::Uint(_) => *target == TypeConstraint::Number || *target == TypeConstraint::Integer,
        Value::Float(_) => *target == TypeConstraint::Number || *target == TypeConstraint::Float,
        Value::Null => false,
    }
}

/// A name carries the reserved sigil: it is a preset name.
pub open spec fn spec_is_preset(s: Seq<char>) -> bool {
    s.len() > 0 && s[0] == '#'
}

pub fn is_preset(name: &str) -> (r: bool)
    ensures
        r == spec_is_preset(name@),
{
    name.unicode_len() > 0 && name.get_char(0) == '#'
}

/// Meta key `k` is present and, when the meta table types it, well-typed.
pub open spec fn spec_meta_ok(e: SpecEntries, k: Seq<char>) -> bool {
    match slookup(e, k) {
        Some(v) => match spec_meta_constraint(k) {
            Some(t) => spec_check_type(v, t),
            None => true,
        },
        None => false,
    }
}

/// Every compulsory meta key is present and well-typed.
pub open spec fn spec_metas_ok(e: SpecEntries) -> bool {
    forall|i: int|
        0 <= i < spec_compulsory_metas().len() ==> spec_meta_ok(
            e,
            #[trigger] spec_compulsory_metas()[i],
        )
}

fn check_meta(e: &Object, k: &str) -> (r: bool)
    ensures
        r == spec_meta_ok(e@, k@),
{
    match e.get(k) {
        Some(v) => match meta_constraint(k) {
            Some(t) => check_type_constraint(v, &t),
            None => true,
        },
        None => false,
    }
}

/// Meta key `k` holds a non-empty string.
pub open spec fn spec_meta_nonempty_string(e: SpecEntries, k: Seq<char>) -> bool {
    slookup(e, k) matches Some(SpecValue::Str(s)) && s.len() > 0
}

pub fn check_meta_is_string_and_nonempty(e: &Object, k: &str) -> (r: Result<(), DTError>)
    ensures
        (r is Ok) == spec_meta_nonempty_string(e@, k@),
        r matches Err(er) ==> er is VerifyError,
{
    match e.get(k) {
        Some(Value::Str(s)) => {
            if s.as_str().unicode_len() == 0 {
                Err(DTError::VerifyError(String::from_str("this meta property cannot be empty")))
            } else {
                Ok(())
            }
        },
        Some(_) => Err(DTError::VerifyError(String::from_str("this meta property should be a string"))),
        None => Err(DTError::VerifyError(String::from_str("this meta property is required, but missing"))),
    }
}

/// One property of a track event is acceptable: its name matches the
/// identifier pattern, and a sigil-prefixed name must be in the event's
/// schema chain with a matching value type. A custom (non-sigil) name is
/// never constrained in type.
pub open spec fn spec_track_prop_ok(event: Seq<char>, k: Seq<char>, v: SpecValue) -> bool {
    &&& spec_valid_name(k)
    &&& (spec_is_preset(k) ==> match spec_track_constraint(event, k) {
        Some(t) => spec_check_type(v, t),
        None => false,
    })
}

/// One property of a user event is acceptable, against the user schema.
pub open spec fn spec_user_prop_ok(k: Seq<char>, v: SpecValue) -> bool {
    &&& spec_valid_name(k)
    &&& (spec_is_preset(k) ==> match spec_user_constraint(k) {
        Some(t) => spec_check_type(v, t),
        None => false,
    })
}

/// Every property of a track event is acceptable.
pub open spec fn spec_props_ok_track(event: Seq<char>, props: SpecEntries) -> bool {
    forall|i: int|
        0 <= i < props.len() ==> spec_track_prop_ok(
            event,
            (#[trigger] props[i]).0,
            props[i].1,
        )
}

/// Every property of a user event is acceptable.
pub open spec fn spec_props_ok_user(props: SpecEntries) -> bool {
    forall|i: int|
        0 <= i < props.len() ==> spec_user_prop_ok((#[trigger] props[i]).0, props[i].1)
}

/// Every custom (non-sigil) property value is an array.
pub open spec fn spec_all_custom_lists(props: SpecEntries) -> bool {
    forall|i: int|
        0 <= i < props.len() ==> (!spec_is_preset((#[trigger] props[i]).0) ==> props[i].1 is Arr)
}

/// Every custom (non-sigil) property value is numeric.
pub open spec fn spec_all_custom_nums(props: SpecEntries) -> bool {
    forall|i: int|
        0 <= i < props.len() ==> (!spec_is_preset((#[trigger] props[i]).0) ==> (props[i].1 is Int
            || props[i].1 is Float))
}

/// A track event's properties are valid; a preset-named track event must
/// also be a member of the preset-event table.
pub open spec fn spec_valid_track(event: Seq<char>, props: SpecEntries) -> bool {
    if spec_is_preset(event) {
        spec_is_preset_event(event) && spec_props_ok_track(event, props)
    } else {
        spec_props_ok_track(event, props)
    }
}

/// A user event's properties are valid; the two append variants accept
/// only array-valued custom properties, the add variant only numeric ones.
pub open spec fn spec_valid_user(event: Seq<char>, props: SpecEntries) -> bool {
    &&& spec_props_ok_user(props)
    &&& ((event == "#user_append"@ || event == "#user_uniq_append"@) ==> spec_all_custom_lists(
        props,
    ))
    &&& (event == "#user_add"@ ==> spec_all_custom_nums(props))
}

/// The event name, when present as a string.
pub open spec fn spec_event_name(e: SpecEntries) -> Option<Seq<char>> {
    match slookup(e, "#event_name"@) {
        Some(SpecValue::Str(s)) => Some(s),
        _ => None,
    }
}

/// The event type, when present as a string.
pub open spec fn spec_event_type(e: SpecEntries) -> Option<Seq<char>> {
    match slookup(e, "#event_type"@) {
        Some(SpecValue::Str(s)) => Some(s),
        _ => None,
    }
}

/// The properties object, when present as an object.
pub open spec fn spec_props(e: SpecEntries) -> Option<SpecEntries> {
    match slookup(e, "properties"@) {
        Some(SpecValue::Obj(o)) => Some(o),
        _ => None,
    }
}

/// The full validation rule for one event, as `verify_event` enforces it.
pub open spec fn spec_valid_event(e: SpecEntries) -> bool {
    match (spec_event_name(e), spec_event_type(e), spec_props(e)) {
        (Some(name), Some(ty), Some(props)) => {
            &&& spec_metas_ok(e)
            &&& spec_meta_nonempty_string(e, "#app_id"@)
            &&& spec_meta_nonempty_string(e, "#dt_id"@)
            &&& spec_valid_name(name)
            &&& if ty == "track"@ {
                spec_valid_track(name, props)
            } else if ty == "user"@ {
                spec_valid_user(name, props)
            } else {
                false
            }
        },
        _ => false,
    }
}

/// Checks one property against the constraint the caller looked up.
pub fn verify_properties(
    key: &str,
    value: &Value,
    type_constraint: Option<TypeConstraint>,
) -> (r: Result<(), DTError>)
    ensures
        (r is Ok) == (spec_valid_name(key@) && (spec_is_preset(key@)
            ==> match type_constraint {
            Some(t) => spec_check_type(value@, t),
            None => false,
        })),
        r matches Err(er) ==> er is VerifyError,
{
    if !check_name(key) {
        return Err(DTError::VerifyError(String::from_str("property name is invalid")));
    }
    if is_preset(key) {
        match type_constraint {
            Some(constraint) => {
                if !check_type_constraint(value, &constraint) {
                    Err(
                        DTError::VerifyError(
                            String::from_str("the type of value for this property is not valid"),
                        ),
                    )
                } else {
                    Ok(())
                }
            },
            None => Err(
                DTError::VerifyError(
                    String::from_str("key of property is out of scope for this event"),
                ),
            ),
        }
    } else {
        Ok(())
    }
}

/// Checks every property of a track event against its schema chain.
pub fn verify_preset_event(event: &str, props: &Object) -> (r: Result<(), DTError>)
    ensures
        (r is Ok) == spec_props_ok_track(event@, props@),
        r matches Err(er) ==> er is VerifyError,
{
    let n = props.entries.len();
    let mut i: usize = 0;
    while i < n
        invariant
            0 <= i <= n,
            n == props.entries@.len(),
            n == props@.len(),
            forall|j: int|
                0 <= j < i ==> spec_track_prop_ok(event@, (#[trigger] props@[j]).0, props@[j].1),
        decreases n - i,
    {
        proof {
            assert(props@[i as int].0 == props.entries@[i as int].0@);
            assert(props@[i as int].1 == vview(props.entries@[i as int].1));
        }
        let key = &props.entries[i].0;
        let value = &props.entries[i].1;
        let constraint = find_constraint_for_event(event, key.as_str());
        match verify_properties(key.as_str(), value, constraint) {
            Err(er) => {
                return Err(er);
            },
            Ok(_) => {},
        }
        i = i + 1;
    }
    Ok(())
}

/// A custom track event goes through the same per-property rule; its
/// name is in no preset table, so only the shared schemas constrain it.
pub fn verify_custom_event(event: &str, props: &Object) -> (r: Result<(), DTError>)
    ensures
        (r is Ok) == spec_props_ok_track(event@, props@),
        r matches Err(er) ==> er is VerifyError,
{
    verify_preset_event(event, props)
}

/// Every custom property value must be an array.
pub fn verify_all_custom_props_are_list(props: &Object) -> (r: Result<(), DTError>)
    ensures
        (r is Ok) == spec_all_custom_lists(props@),
        r matches Err(er) ==> er is VerifyError,
{
    let n = props.entries.len();
    let mut i: usize = 0;
    while i < n
        invariant
            0 <= i <= n,
            n == props.entries@.len(),
            n == props@.len(),
            forall|j: int|
                0 <= j < i ==> (!spec_is_preset((#[trigger] props@[j]).0) ==> props@[j].1 is Arr),
        decreases n - i,
    {
        proof {
            assert(props@[i as int].0 == props.entries@[i as int].0@);
            assert(props@[i as int].1 == vview(props.entries@[i as int].1));
        }
        let key = &props.entries[i].0;
        let value = &props.entries[i].1;
        if !is_preset(key.as_str()) {
            match value {
                Value::Arr(_) => {},
                _ => {
                    return Err(
                        DTError::VerifyError(
                            String::from_str("type of value in this event should be a list"),
                        ),
                    );
                },
            }
        }
        i = i + 1;
    }
    Ok(())
}

/// Every custom property value must be numeric.
pub fn verify_all_custom_props_are_num(props: &Object) -> (r: Result<(), DTError>)
    ensures
        (r is Ok) == spec_all_custom_nums(props@),
        r matches Err(er) ==> er is VerifyError,
{
    let n = props.entries.len();
    let mut i: usize = 0;
    while i < n
        invariant
            0 <= i <= n,
            n == props.entries@.len(),
            n == props@.len(),
            forall|j: int|
                0 <= j < i ==> (!spec_is_preset((#[trigger] props@[j]).0) ==> (props@[j].1 is Int
                    || props@[j].1 is Float)),
        decreases n - i,
    {
        proof {
            assert(props@[i as int].0 == props.entries@[i as int].0@);
            assert(props@[i as int].1 == vview(props.entries@[i as int].1));
        }
        let key = &props.entries[i].0;
        let value = &props.entries[i].1;
        if !is_preset(key.as_str()) {
            match value {
                Value::Int(_) => {},
                Value::Uint(_) => {},
                Value::Float(_) => {},
                _ => {
                    return Err(
                        DTError::VerifyError(
                            String::from_str("type of value in this event should be a number"),
                        ),
                    );
                },
            }
        }
        i = i + 1;
    }
    Ok(())
}

/// Checks a user event: every property against the user schema, and the
/// extra value-shape rule of the append and add variants.
pub fn verify_user_event(event: &str, props: &Object) -> (r: Result<(), DTError>)
    ensures
        (r is Ok) == spec_valid_user(event@, props@),
        r matches Err(er) ==> er is VerifyError,
{
    let n = props.entries.len();
    let mut i: usize = 0;
    while i < n
        invariant
            0 <= i <= n,
            n == props.entries@.len(),
            n == props@.len(),
            forall|j: int|
                0 <= j < i ==> spec_user_prop_ok((#[trigger] props@[j]).0, props@[j].1),
        decreases n - i,
    {
        proof {
            assert(props@[i as int].0 == props.entries@[i as int].0@);
            assert(props@[i as int].1 == vview(props.entries@[i as int].1));
        }
        let key = &props.entries[i].0;
        let value = &props.entries[i].1;
        let constraint = find_constraint_for_user_event(key.as_str());
        match verify_properties(key.as_str(), value, constraint) {
            Err(er) => {
                proof {
                    assert(!spec_user_prop_ok(props@[i as int].0, props@[i as int].1));
                }
                return Err(er);
            },
            Ok(_) => {},
        }
        i = i + 1;
    }
    let is_append = str_eq(event, "#user_append") || str_eq(event, "#user_uniq_append");
    if is_append {
        proof {
            reveal_strlit("#user_append");
            reveal_strlit("#user_uniq_append");
            reveal_strlit("#user_add");
        }
        let lr = verify_all_custom_props_are_list(props);
        proof {
            if lr is Ok {
                assert(spec_all_custom_lists(props@));
                assert("#user_add"@.len() == 9);
                assert("#user_append"@.len() == 12);
                assert("#user_uniq_append"@.len() == 17);
                assert(event@ != "#user_add"@);
                assert(spec_valid_user(event@, props@));
            } else {
                assert(!spec_valid_user(event@, props@));
            }
        }
        lr
    } else if str_eq(event, "#user_add") {
        let nr = verify_all_custom_props_are_num(props);
        proof {
            if nr is Ok {
                assert(spec_all_custom_nums(props@));
                assert(spec_valid_user(event@, props@));
            } else {
                assert(!spec_valid_user(event@, props@));
            }
        }
        nr
    } else {
        proof {
            assert(spec_valid_user(event@, props@));
        }
        Ok(())
    }
}

/// Validates one event against the schema: exactly the rule stated by
/// `spec_valid_event`. Returns a `VerifyError` if and only if the event
/// breaks that rule.
pub fn verify_event(e: &Object) -> (r: Result<(), DTError>)
    ensures
        (r is Ok) == spec_valid_event(e@),
        r matches Err(er) ==> er is VerifyError,
{
    let missing = String::from_str("a compulsory meta property is missing or its type is invalid");
    if !check_meta(e, "#app_id") {
        proof {
            assert(spec_compulsory_metas()[0] == "#app_id"@);
        }
        return Err(DTError::VerifyError(missing));
    }
    if !check_meta(e, "#bundle_id") {
        proof {
            assert(spec_compulsory_metas()[1] == "#bundle_id"@);
        }
        return Err(DTError::VerifyError(missing));
    }
    if !check_meta(e, "#dt_id") {
        proof {
            assert(spec_compulsory_metas()[2] == "#dt_id"@);
        }
        return Err(DTError::VerifyError(missing));
    }
    if !check_meta(e, "#event_time") {
        proof {
            assert(spec_compulsory_metas()[3] == "#event_time"@);
        }
        return Err(DTError::VerifyError(missing));
    }
    if !check_meta(e, "#event_name") {
        proof {
            assert(spec_compulsory_metas()[4] == "#event_name"@);
        }
        return Err(DTError::VerifyError(missing));
    }
    if !check_meta(e, "#event_type") {
        proof {
            assert(spec_compulsory_metas()[5] == "#event_type"@);
        }
        return Err(DTError::VerifyError(missing));
    }
    if !check_meta(e, "#event_syn") {
        proof {
            assert(spec_compulsory_metas()[6] == "#event_syn"@);
        }
        return Err(DTError::VerifyError(missing));
    }
    if !check_meta(e, "properties") {
        proof {
            assert(spec_compulsory_metas()[7] == "properties"@);
        }
        return Err(DTError::VerifyError(missing));
    }
    proof {
        assert forall|i: int| 0 <= i < spec_compulsory_metas().len() implies spec_meta_ok(
            e@,
            #[trigger] spec_compulsory_metas()[i],
        ) by {
            if i == 0 {
            } else if i == 1 {
            } else if i == 2 {
            } else if i == 3 {
            } else if i == 4 {
            } else if i == 5 {
            } else if i == 6 {
            } else {
                assert(i == 7);
            }
        }
    }
    match check_meta_is_string_and_nonempty(e, "#app_id") {
        Err(er) => {
            return Err(er);
        },
        Ok(_) => {},
    }
    match check_meta_is_string_and_nonempty(e, "#dt_id") {
        Err(er) => {
            return Err(er);
        },
        Ok(_) => {},
    }
    let event_name = match e.get("#event_name") {
        Some(Value::Str(s)) => s,
        _ => {
            return Err(
                DTError::VerifyError(
                    String::from_str("#event_name is missing or its type is invalid"),
                ),
            );
        },
    };
    if !check_name(event_name.as_str()) {
        return Err(
            DTError::VerifyError(String::from_str("#event_name must be a valid variable name")),
        );
    }
    let event_type = match e.get("#event_type") {
        Some(Value::Str(s)) => s,
        _ => {
            return Err(
                DTError::VerifyError(
                    String::from_str("#event_type is missing or its type is invalid"),
                ),
            );
        },
    };
    let props = match e.get("properties") {
        Some(Value::Obj(o)) => o,
        _ => {
            return Err(
                DTError::VerifyError(
                    String::from_str("properties is missing or its type is invalid"),
                ),
            );
        },
    };
    proof {
        assert(spec_event_name(e@) == Some(event_name@));
        assert(spec_event_type(e@) == Some(event_type@));
        assert(spec_props(e@) == Some(props@));
    }
    if str_eq(event_type.as_str(), "track") {
        if is_preset(event_name.as_str()) {
            if !is_preset_event(event_name.as_str()) {
                return Err(
                    DTError::VerifyError(String::from_str("event_name is out of scope (preset)")),
                );
            }
            verify_preset_event(event_name.as_str(), props)
        } else {
            verify_custom_event(event_name.as_str(), props)
        }
    } else if str_eq(event_type.as_str(), "user") {
        verify_user_event(event_name.as_str(), props)
    } else {
        Err(DTError::VerifyError(String::from_str("event_type is invalid")))
    }
}

/// The warm-up hook the bindings call before first use; the schema
/// tables here are plain functions, so there is nothing to prepare.
pub fn init() -> (r: Result<(), DTError>)
    ensures
        r is Ok,
{
    Ok(())
}

/// Law: an event that lacks any compulsory meta key is invalid, so
/// `verify_event` rejects it with a `VerifyError`.
pub proof fn lemma_missing_meta_rejected(e: SpecEntries, k: Seq<char>)
    requires
        spec_compulsory_metas().contains(k),
        slookup(e, k) is None,
    ensures
        !spec_valid_event(e),
{
    let i = choose|i: int|
        0 <= i < spec_compulsory_metas().len() && spec_compulsory_metas()[i] == k;
    assert(!spec_meta_ok(e, spec_compulsory_metas()[i]));
}

/// Law: on a track event, a sigil-prefixed property key that is in
/// neither the event's own schema nor the shared schemas makes the
/// event invalid, whatever its value.
pub proof fn lemma_out_of_scope_preset_key_rejected(event: Seq<char>, props: SpecEntries, i: int)
    requires
        0 <= i < props.len(),
        spec_is_preset(props[i].0),
        spec_track_constraint(event, props[i].0) is None,
    ensures
        !spec_valid_track(event, props),
{
    assert(!spec_track_prop_ok(event, props[i].0, props[i].1));
}

/// Law: a custom (non-sigil) property key with a well-formed name is
/// never rejected on schema grounds, whatever shape its value has.
pub proof fn lemma_custom_key_unconstrained(event: Seq<char>, k: Seq<char>, v: SpecValue)
    requires
        spec_valid_name(k),
        !spec_is_preset(k),
    ensures
        spec_track_prop_ok(event, k, v),
        spec_user_prop_ok(k, v),
{
}

/// Law: the two user append variants reject any non-array custom
/// property value.
pub proof fn lemma_user_append_requires_lists(event: Seq<char>, props: SpecEntries, i: int)
    requires
        event == "#user_append"@ || event == "#user_uniq_append"@,
        0 <= i < props.len(),
        !spec_is_preset(props[i].0),
        !(props[i].1 is Arr),
    ensures
        !spec_valid_user(event, props),
{
    assert(!spec_all_custom_lists(props));
}

/// Law: the user add variant rejects any non-numeric custom property
/// value.
pub proof fn lemma_user_add_requires_numbers(event: Seq<char>, props: SpecEntries, i: int)
    requires
        event == "#user_add"@,
        0 <= i < props.len(),
        !spec_is_preset(props[i].0),
        !(props[i].1 is Int),
        !(props[i].1 is Float),
    ensures
        !spec_valid_user(event, props),
{
    assert(!spec_all_custom_nums(props));
}

/// Law: sigil-prefixed keys are exempt from the user value-shape rule:
/// an append-variant event whose properties pass the per-key schema
/// check is valid as soon as its custom values are arrays, no matter
/// what its preset-keyed values look like.
pub proof fn lemma_user_shape_exempts_preset_keys(event: Seq<char>, props: SpecEntries)
    requires
        event == "#user_append"@ || event == "#user_uniq_append"@,
        spec_props_ok_user(props),
        forall|i: int|
            0 <= i < props.len() ==> (!spec_is_preset((#[trigger] props[i]).0) ==> props[i].1
                is Arr),
    ensures
        spec_valid_user(event, props),
{
    proof_user_names_distinct();
}

/// The three special user event names differ from one another.
proof fn proof_user_names_distinct()
    ensures
        "#user_append"@ != "#user_add"@,
        "#user_uniq_append"@ != "#user_add"@,
        "#user_append"@ != "#user_uniq_append"@,
{
    reveal_strlit("#user_append");
    reveal_strlit("#user_uniq_append");
    reveal_strlit("#user_add");
    assert("#user_append"@.len() == 12);
    assert("#user_uniq_append"@.len() == 17);
    assert("#user_add"@.len() == 9);
}

} // verus!
