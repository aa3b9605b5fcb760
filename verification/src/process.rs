use vstd::prelude::*;
use crate::error::DTError;
use crate::schema::{meta_constraint, spec_meta_constraint};
use crate::value::{skeys_unique, slookup, vview, Object, SpecEntries, SpecValue, Value};
use crate::verify::{spec_valid_event, verify_event};

verus! {

broadcast use vstd::string::group_string_axioms;

/// The version the core stamps into `#sdk_version_name`.
pub const BASE_VERSION: &'static str = "0.1.0";

/// The SDK type stamped when the host forgot to set one.
pub const DEFAULT_SDK_TYPE: &'static str = "dt_core_base";

pub fn get_base_version() -> (r: &'static str)
    ensures
        r@ == BASE_VERSION@,
{
    BASE_VERSION
}

/// A key is a meta key when the meta table types it.
pub open spec fn spec_is_meta(k: Seq<char>) -> bool {
    spec_meta_constraint(k) is Some
}

/// The document needs reshaping when it holds any non-meta key at the
/// top level. More keys than the meta table has guarantees that.
pub open spec fn spec_need_eventify(e: SpecEntries) -> bool {
    e.len() > 12 || exists|i: int| 0 <= i < e.len() && !spec_is_meta((#[trigger] e[i]).0)
}

pub fn is_need_eventify(e: &Object) -> (r: bool)
    ensures
        r == spec_need_eventify(e@),
{
    let n = e.entries.len();
    if n > 12 {
        return true;
    }
    let mut i: usize = 0;
    while i < n
        invariant
            0 <= i <= n,
            n == e.entries@.len(),
            n == e@.len(),
            forall|j: int| 0 <= j < i ==> spec_is_meta((#[trigger] e@[j]).0),
        decreases n - i,
    {
        proof {
            assert(e@[i as int].0 == e.entries@[i as int].0@);
        }
        if meta_constraint(e.entries[i].0.as_str()).is_none() {
            return true;
        }
        i = i + 1;
    }
    false
}

/// Pins down the characters of the key literals this module stamps or
/// moves, so that their distinctness is available to frame reasoning.
proof fn lemma_meta_literals()
    ensures
        "#app_id"@ == seq!['#', 'a', 'p', 'p', '_', 'i', 'd'],
        "#bundle_id"@ == seq!['#', 'b', 'u', 'n', 'd', 'l', 'e', '_', 'i', 'd'],
        "#android_id"@ == seq!['#', 'a', 'n', 'd', 'r', 'o', 'i', 'd', '_', 'i', 'd'],
        "#gaid"@ == seq!['#', 'g', 'a', 'i', 'd'],
        "#dt_id"@ == seq!['#', 'd', 't', '_', 'i', 'd'],
        "#acid"@ == seq!['#', 'a', 'c', 'i', 'd'],
        "#event_name"@ == seq!['#', 'e', 'v', 'e', 'n', 't', '_', 'n', 'a', 'm', 'e'],
        "#event_type"@ == seq!['#', 'e', 'v', 'e', 'n', 't', '_', 't', 'y', 'p', 'e'],
        "#event_time"@ == seq!['#', 'e', 'v', 'e', 'n', 't', '_', 't', 'i', 'm', 'e'],
        "#event_syn"@ == seq!['#', 'e', 'v', 'e', 'n', 't', '_', 's', 'y', 'n'],
        "#debug"@ == seq!['#', 'd', 'e', 'b', 'u', 'g'],
        "properties"@ == seq!['p', 'r', 'o', 'p', 'e', 'r', 't', 'i', 'e', 's'],
        "#sdk_version_name"@ == seq![
            '#',
            's',
            'd',
            'k',
            '_',
            'v',
            'e',
            'r',
            's',
            'i',
            'o',
            'n',
            '_',
            'n',
            'a',
            'm',
            'e',
        ],
        "#sdk_type"@ == seq!['#', 's', 'd', 'k', '_', 't', 'y', 'p', 'e'],
{
    reveal_strlit("#app_id");
    reveal_strlit("#bundle_id");
    reveal_strlit("#android_id");
    reveal_strlit("#gaid");
    reveal_strlit("#dt_id");
    reveal_strlit("#acid");
    reveal_strlit("#event_name");
    reveal_strlit("#event_type");
    reveal_strlit("#event_time");
    reveal_strlit("#event_syn");
    reveal_strlit("#debug");
    reveal_strlit("properties");
    reveal_strlit("#sdk_version_name");
    reveal_strlit("#sdk_type");
    assert("#app_id"@ =~= seq!['#', 'a', 'p', 'p', '_', 'i', 'd']);
    assert("#bundle_id"@ =~= seq!['#', 'b', 'u', 'n', 'd', 'l', 'e', '_', 'i', 'd']);
    assert("#android_id"@ =~= seq!['#', 'a', 'n', 'd', 'r', 'o', 'i', 'd', '_', 'i', 'd']);
    assert("#gaid"@ =~= seq!['#', 'g', 'a', 'i', 'd']);
    assert("#dt_id"@ =~= seq!['#', 'd', 't', '_', 'i', 'd']);
    assert("#acid"@ =~= seq!['#', 'a', 'c', 'i', 'd']);
    assert("#event_name"@ =~= seq!['#', 'e', 'v', 'e', 'n', 't', '_', 'n', 'a', 'm', 'e']);
    assert("#event_type"@ =~= seq!['#', 'e', 'v', 'e', 'n', 't', '_', 't', 'y', 'p', 'e']);
    assert("#event_time"@ =~= seq!['#', 'e', 'v', 'e', 'n', 't', '_', 't', 'i', 'm', 'e']);
    assert("#event_syn"@ =~= seq!['#', 'e', 'v', 'e', 'n', 't', '_', 's', 'y', 'n']);
    assert("#debug"@ =~= seq!['#', 'd', 'e', 'b', 'u', 'g']);
    assert("properties"@ =~= seq!['p', 'r', 'o', 'p', 'e', 'r', 't', 'i', 'e', 's']);
    assert("#sdk_version_name"@ =~= seq![
        '#',
        's',
        'd',
        'k',
        '_',
        'v',
        'e',
        'r',
        's',
        'i',
        'o',
        'n',
        '_',
        'n',
        'a',
        'm',
        'e',
    ]);
    assert("#sdk_type"@ =~= seq!['#', 's', 'd', 'k', '_', 't', 'y', 'p', 'e']);
}

/// What reshaping promises: untouched when not needed; otherwise the
/// meta keys stay at the top level and everything else moves into the
/// `properties` object. An input that already carried a `properties`
/// object keeps its entries: nothing is lost, and on a key carried
/// both loose and nested, the loose value wins.
pub open spec fn eventify_rel(e: SpecEntries, r: SpecEntries) -> bool {
    if !spec_need_eventify(e) {
        r == e
    } else {
        &&& skeys_unique(r)
        &&& (forall|k: Seq<char>|
            spec_is_meta(k) && k != "properties"@ ==> slookup(r, k) == slookup(e, k))
        &&& (forall|k: Seq<char>| !spec_is_meta(k) ==> slookup(r, k) is None)
        &&& (slookup(r, "properties"@) matches Some(SpecValue::Obj(rest)) && skeys_unique(rest)
            && forall|k: Seq<char>|
            slookup(rest, k) == (if !spec_is_meta(k) && slookup(e, k) is Some {
                slookup(e, k)
            } else {
                match slookup(e, "properties"@) {
                    Some(SpecValue::Obj(p0)) => slookup(p0, k),
                    _ => None,
                }
            }))
    }
}

/// Moves the entry under `k`, if any, from `src` to `dst`.
fn move_key(src: &mut Object, dst: &mut Object, k: &str)
    requires
        old(src).keys_unique(),
        old(dst).keys_unique(),
    ensures
        final(src).keys_unique(),
        final(dst).keys_unique(),
        final(src).spec_get(k@) is None,
        final(dst).spec_get(k@) == (if old(src).spec_contains(k@) {
            old(src).spec_get(k@)
        } else {
            old(dst).spec_get(k@)
        }),
        forall|k2: Seq<char>| k2 != k@ ==> final(src).spec_get(k2) == old(src).spec_get(k2),
        forall|k2: Seq<char>| k2 != k@ ==> final(dst).spec_get(k2) == old(dst).spec_get(k2),
{
    match src.remove(k) {
        Some(v) => {
            dst.insert(String::from_str(k), v);
        },
        None => {},
    }
}

/// Pulls the eleven single-valued meta keys out of `rest` into the
/// empty `result`, leaving everything else where it was.
#[verifier::rlimit(100)]
fn pull_metas(rest: &mut Object, result: &mut Object)
    requires
        old(rest).keys_unique(),
        old(result).keys_unique(),
        forall|k: Seq<char>| !old(result).spec_contains(k),
        old(rest).spec_get("properties"@) is None,
    ensures
        final(rest).keys_unique(),
        final(result).keys_unique(),
        forall|k: Seq<char>|
            slookup(final(result)@, k) == (if spec_is_meta(k) && k != "properties"@ {
                slookup(old(rest)@, k)
            } else {
                None
            }),
        forall|k: Seq<char>|
            slookup(final(rest)@, k) == (if spec_is_meta(k) {
                None
            } else {
                slookup(old(rest)@, k)
            }),
{
    proof {
        lemma_meta_literals();
    }
    let ghost r0 = *rest;
    let ghost d0 = *result;
    move_key(rest, result, "#app_id");
    let ghost r1 = *rest;
    let ghost d1 = *result;
    move_key(rest, result, "#bundle_id");
    let ghost r2 = *rest;
    let ghost d2 = *result;
    move_key(rest, result, "#android_id");
    let ghost r3 = *rest;
    let ghost d3 = *result;
    move_key(rest, result, "#gaid");
    let ghost r4 = *rest;
    let ghost d4 = *result;
    move_key(rest, result, "#dt_id");
    let ghost r5 = *rest;
    let ghost d5 = *result;
    move_key(rest, result, "#acid");
    let ghost r6 = *rest;
    let ghost d6 = *result;
    move_key(rest, result, "#event_name");
    let ghost r7 = *rest;
    let ghost d7 = *result;
    move_key(rest, result, "#event_type");
    let ghost r8 = *rest;
    let ghost d8 = *result;
    move_key(rest, result, "#event_time");
    let ghost r9 = *rest;
    let ghost d9 = *result;
    move_key(rest, result, "#event_syn");
    let ghost r10 = *rest;
    let ghost d10 = *result;
    move_key(rest, result, "#debug");
    let ghost r11 = *rest;
    let ghost d11 = *result;
    proof {
        assert forall|k: Seq<char>| #![auto] true implies (slookup(result@, k) == (
        if spec_is_meta(k) && k != "properties"@ {
            slookup(old(rest)@, k)
        } else {
            None
        })) && (slookup(rest@, k) == (if spec_is_meta(k) {
            None
        } else {
            slookup(old(rest)@, k)
        })) by {
            assert(!d0.spec_contains(k));
            assert(r0.spec_get("properties"@) is None);
            assert(d1.spec_get(k) == (if k == "#app_id"@ {
                if r0.spec_contains("#app_id"@) {
                    r0.spec_get("#app_id"@)
                } else {
                    d0.spec_get("#app_id"@)
                }
            } else {
                d0.spec_get(k)
            }));
            assert(r1.spec_get(k) == (if k == "#app_id"@ {
                None
            } else {
                r0.spec_get(k)
            }));
            assert(d2.spec_get(k) == (if k == "#bundle_id"@ {
                if r1.spec_contains("#bundle_id"@) {
                    r1.spec_get("#bundle_id"@)
                } else {
                    d1.spec_get("#bundle_id"@)
                }
            } else {
                d1.spec_get(k)
            }));
            assert(r2.spec_get(k) == (if k == "#bundle_id"@ {
                None
            } else {
                r1.spec_get(k)
            }));
            assert(d3.spec_get(k) == (if k == "#android_id"@ {
                if r2.spec_contains("#android_id"@) {
                    r2.spec_get("#android_id"@)
                } else {
                    d2.spec_get("#android_id"@)
                }
            } else {
                d2.spec_get(k)
            }));
            assert(r3.spec_get(k) == (if k == "#android_id"@ {
                None
            } else {
                r2.spec_get(k)
            }));
            assert(d4.spec_get(k) == (if k == "#gaid"@ {
                if r3.spec_contains("#gaid"@) {
                    r3.spec_get("#gaid"@)
                } else {
                    d3.spec_get("#gaid"@)
                }
            } else {
                d3.spec_get(k)
            }));
            assert(r4.spec_get(k) == (if k == "#gaid"@ {
                None
            } else {
                r3.spec_get(k)
            }));
            assert(d5.spec_get(k) == (if k == "#dt_id"@ {
                if r4.spec_contains("#dt_id"@) {
                    r4.spec_get("#dt_id"@)
                } else {
                    d4.spec_get("#dt_id"@)
                }
            } else {
                d4.spec_get(k)
            }));
            assert(r5.spec_get(k) == (if k == "#dt_id"@ {
                None
            } else {
                r4.spec_get(k)
            }));
            assert(d6.spec_get(k) == (if k == "#acid"@ {
                if r5.spec_contains("#acid"@) {
                    r5.spec_get("#acid"@)
                } else {
                    d5.spec_get("#acid"@)
                }
            } else {
                d5.spec_get(k)
            }));
            assert(r6.spec_get(k) == (if k == "#acid"@ {
                None
            } else {
                r5.spec_get(k)
            }));
            assert(d7.spec_get(k) == (if k == "#event_name"@ {
                if r6.spec_contains("#event_name"@) {
                    r6.spec_get("#event_name"@)
                } else {
                    d6.spec_get("#event_name"@)
                }
            } else {
                d6.spec_get(k)
            }));
            assert(r7.spec_get(k) == (if k == "#event_name"@ {
                None
            } else {
                r6.spec_get(k)
            }));
            assert(d8.spec_get(k) == (if k == "#event_type"@ {
                if r7.spec_contains("#event_type"@) {
                    r7.spec_get("#event_type"@)
                } else {
                    d7.spec_get("#event_type"@)
                }
            } else {
                d7.spec_get(k)
            }));
            assert(r8.spec_get(k) == (if k == "#event_type"@ {
                None
            } else {
                r7.spec_get(k)
            }));
            assert(d9.spec_get(k) == (if k == "#event_time"@ {
                if r8.spec_contains("#event_time"@) {
                    r8.spec_get("#event_time"@)
                } else {
                    d8.spec_get("#event_time"@)
                }
            } else {
                d8.spec_get(k)
            }));
            assert(r9.spec_get(k) == (if k == "#event_time"@ {
                None
            } else {
                r8.spec_get(k)
            }));
            assert(d10.spec_get(k) == (if k == "#event_syn"@ {
                if r9.spec_contains("#event_syn"@) {
                    r9.spec_get("#event_syn"@)
                } else {
                    d9.spec_get("#event_syn"@)
                }
            } else {
                d9.spec_get(k)
            }));
            assert(r10.spec_get(k) == (if k == "#event_syn"@ {
                None
            } else {
                r9.spec_get(k)
            }));
            assert(d11.spec_get(k) == (if k == "#debug"@ {
                if r10.spec_contains("#debug"@) {
                    r10.spec_get("#debug"@)
                } else {
                    d10.spec_get("#debug"@)
                }
            } else {
                d10.spec_get(k)
            }));
            assert(r11.spec_get(k) == (if k == "#debug"@ {
                None
            } else {
                r10.spec_get(k)
            }));
            assert(result.spec_get(k) == slookup(result@, k));
            assert(rest.spec_get(k) == slookup(rest@, k));
            assert(r0.spec_get(k) == slookup(old(rest)@, k));
        }
    }
}

/// Reshapes a flat mixed document into the meta-plus-properties form.
#[verifier::rlimit(100)]
pub fn eventify(e: Object) -> (r: Object)
    requires
        e.keys_unique(),
        e.spec_get("properties"@) matches Some(SpecValue::Obj(p)) ==> skeys_unique(p),
    ensures
        eventify_rel(e@, r@),
        r.keys_unique(),
{
    proof {
        lemma_meta_literals();
    }
    if !is_need_eventify(&e) {
        return e;
    }
    let ghost eo = e;
    let mut rest = e;
    proof {
        assert(rest.keys_unique());
    }
    let mut result = Object::new();
    let taken = rest.remove("properties");
    let ghost rpulled0 = rest;
    pull_metas(&mut rest, &mut result);
    let ghost r11 = rest;
    let ghost dres = result;
    match &taken {
        Some(Value::Obj(p0)) => {
            proof {
                assert(p0.keys_unique());
            }
            merge_into(&mut rest, p0);
        },
        _ => {},
    }
    let ghost rfin = rest;
    result.insert(String::from_str("properties"), Value::Obj(rest));
    proof {
        assert forall|k: Seq<char>| #![auto] true implies slookup(result@, k) == (if k
            == "properties"@ {
            Some(SpecValue::Obj(rfin@))
        } else if spec_is_meta(k) {
            slookup(eo@, k)
        } else {
            None
        }) by {
            assert(rpulled0.spec_get(k) == (if k == "properties"@ {
                None
            } else {
                eo.spec_get(k)
            }));
            assert(rpulled0.spec_get(k) == slookup(rpulled0@, k));
            assert(result.spec_get(k) == slookup(result@, k));
            assert(eo.spec_get(k) == slookup(eo@, k));
        }
        assert forall|k: Seq<char>| #![auto] true implies slookup(rfin@, k) == (if !spec_is_meta(
            k,
        ) && slookup(eo@, k) is Some {
            slookup(eo@, k)
        } else {
            match slookup(eo@, "properties"@) {
                Some(SpecValue::Obj(p0v)) => slookup(p0v, k),
                _ => None,
            }
        }) by {
            assert(rpulled0.spec_get(k) == (if k == "properties"@ {
                None
            } else {
                eo.spec_get(k)
            }));
            assert(rpulled0.spec_get(k) == slookup(rpulled0@, k));
            assert(r11.spec_get(k) == slookup(r11@, k));
            match slookup(eo@, "properties"@) {
                Some(SpecValue::Obj(p0v)) => {
                    assert(taken matches Some(v) && v@ == SpecValue::Obj(p0v));
                    assert(taken matches Some(Value::Obj(p0x)) && p0x@ == p0v);
                    assert(rfin.spec_get(k) == (if r11.spec_contains(k) {
                        r11.spec_get(k)
                    } else {
                        slookup(p0v, k)
                    }));
                },
                _ => {
                    assert(rfin == r11);
                },
            }
            assert(rfin.spec_get(k) == slookup(rfin@, k));
            assert(eo.spec_get(k) == slookup(eo@, k));
        }
        assert(slookup(result@, "properties"@) == Some(SpecValue::Obj(rfin@)));
        assert(eo@ == e@);
    }
    result
}

/// What filling the metas promises: a missing `#event_time` is stamped
/// with the clock value, a missing `#event_syn` with the fresh token, a
/// set debug flag stamps `#debug = true`, and `properties` exists
/// afterwards; nothing else changes.
pub open spec fn fulfill_rel(
    e: SpecEntries,
    r: SpecEntries,
    now_ms: u64,
    syn: Seq<char>,
    debug: bool,
) -> bool {
    &&& skeys_unique(r)
    &&& slookup(r, "#event_time"@) == (if slookup(e, "#event_time"@) is Some {
        slookup(e, "#event_time"@)
    } else {
        Some(SpecValue::Int(now_ms as int))
    })
    &&& slookup(r, "#event_syn"@) == (if slookup(e, "#event_syn"@) is Some {
        slookup(e, "#event_syn"@)
    } else {
        Some(SpecValue::Str(syn))
    })
    &&& slookup(r, "#debug"@) == (if debug {
        Some(SpecValue::Bool(true))
    } else {
        slookup(e, "#debug"@)
    })
    &&& (slookup(e, "properties"@) is Some ==> slookup(r, "properties"@) == slookup(
        e,
        "properties"@,
    ))
    &&& (slookup(e, "properties"@) is None ==> (slookup(r, "properties"@) matches Some(
        SpecValue::Obj(p),
    ) && p.len() == 0))
    &&& (forall|k: Seq<char>|
        k != "#event_time"@ && k != "#event_syn"@ && k != "#debug"@ && k != "properties"@
            ==> slookup(r, k) == slookup(e, k))
}

/// Stamps the compulsory metas the caller may omit.
pub fn fulfill_metas(e: &mut Object, now_ms: u64, syn: String, debug: bool)
    requires
        old(e).keys_unique(),
    ensures
        fulfill_rel(old(e)@, final(e)@, now_ms, syn@, debug),
        final(e).keys_unique(),
{
    proof {
        lemma_meta_literals();
    }
    let ghost syn0 = syn@;
    let ghost o0 = *e;
    if !e.contains_key("#event_time") {
        e.insert(String::from_str("#event_time"), Value::Uint(now_ms));
    }
    let ghost o1 = *e;
    if !e.contains_key("#event_syn") {
        e.insert(String::from_str("#event_syn"), Value::Str(syn));
    }
    let ghost o2 = *e;
    if debug {
        e.insert(String::from_str("#debug"), Value::Bool(true));
    }
    let ghost o3 = *e;
    if !e.contains_key("properties") {
        e.insert(String::from_str("properties"), Value::Obj(Object::new()));
    }
    proof {
        assert forall|k: Seq<char>| #![trigger slookup(e@, k)] #![trigger slookup(old(e)@, k)]
            true implies slookup(e@, k) == (if k == "#event_time"@ && !o0.spec_contains(k) {
            Some(SpecValue::Int(now_ms as int))
        } else if k == "#event_syn"@ && !o0.spec_contains(k) {
            Some(SpecValue::Str(syn0))
        } else if k == "#debug"@ && debug {
            Some(SpecValue::Bool(true))
        } else if k == "properties"@ && !o0.spec_contains(k) {
            slookup(e@, k)
        } else {
            slookup(old(e)@, k)
        }) by {
            assert(o1.spec_get(k) == (if k == "#event_time"@ && !o0.spec_contains(
                "#event_time"@,
            ) {
                Some(SpecValue::Int(now_ms as int))
            } else {
                o0.spec_get(k)
            }));
            assert(o2.spec_get(k) == (if k == "#event_syn"@ && !o1.spec_contains("#event_syn"@) {
                Some(SpecValue::Str(syn0))
            } else {
                o1.spec_get(k)
            }));
            assert(o3.spec_get(k) == (if k == "#debug"@ && debug {
                Some(SpecValue::Bool(true))
            } else {
                o2.spec_get(k)
            }));
            assert(e.spec_get(k) == (if k == "properties"@ && !o3.spec_contains("properties"@) {
                e.spec_get(k)
            } else {
                o3.spec_get(k)
            }));
            assert(e.spec_get(k) == slookup(e@, k));
            assert(o0.spec_get(k) == slookup(old(e)@, k));
        }
        assert(!o0.spec_contains("properties"@) ==> (slookup(e@, "properties"@) matches Some(
            SpecValue::Obj(p),
        ) && p.len() == 0));
    }
}

/// What the SDK stamp promises: inside an existing `properties` object,
/// `#sdk_version_name` is overwritten with the core's version and a
/// missing or non-string `#sdk_type` is defaulted; a document without a
/// `properties` object is untouched.
pub open spec fn inject_rel(e: SpecEntries, r: SpecEntries) -> bool {
    match slookup(e, "properties"@) {
        Some(SpecValue::Obj(p)) => {
            &&& skeys_unique(r)
            &&& (slookup(r, "properties"@) matches Some(SpecValue::Obj(p2)) && {
                &&& skeys_unique(p2)
                &&& (slookup(p2, "#sdk_version_name"@) matches Some(SpecValue::Str(v)) && v
                    == BASE_VERSION@)
                &&& ((slookup(p, "#sdk_type"@) matches Some(SpecValue::Str(t))) ==> slookup(
                    p2,
                    "#sdk_type"@,
                ) == slookup(p, "#sdk_type"@))
                &&& (!(slookup(p, "#sdk_type"@) matches Some(SpecValue::Str(t))) ==> (slookup(
                    p2,
                    "#sdk_type"@,
                ) matches Some(SpecValue::Str(t)) && t == DEFAULT_SDK_TYPE@))
                &&& (forall|k: Seq<char>|
                    k != "#sdk_version_name"@ && k != "#sdk_type"@ ==> slookup(p2, k) == slookup(
                        p,
                        k,
                    ))
            })
            &&& (forall|k: Seq<char>| k != "properties"@ ==> slookup(r, k) == slookup(e, k))
        },
        _ => r == e,
    }
}

/// Stamps the SDK identification pair into `properties`.
pub fn inject_sdk_base_info(e: &mut Object)
    requires
        old(e).keys_unique(),
        old(e).spec_get("properties"@) matches Some(SpecValue::Obj(p)) ==> skeys_unique(p),
    ensures
        inject_rel(old(e)@, final(e)@),
        final(e).keys_unique(),
{
    proof {
        lemma_meta_literals();
    }
    let has_props_obj = match e.get("properties") {
        Some(Value::Obj(_)) => true,
        _ => false,
    };
    if !has_props_obj {
        return;
    }
    let taken = e.remove("properties");
    let ghost o1 = *e;
    let mut p = match taken {
        Some(Value::Obj(p)) => p,
        _ => Object::new(),
    };
    let ghost p0 = p;
    proof {
        assert(p.keys_unique());
    }
    p.insert(
        String::from_str("#sdk_version_name"),
        Value::Str(String::from_str(get_base_version())),
    );
    let ghost p1 = p;
    let type_is_string = match p.get("#sdk_type") {
        Some(Value::Str(_)) => true,
        _ => false,
    };
    if !type_is_string {
        p.insert(String::from_str("#sdk_type"), Value::Str(String::from_str(DEFAULT_SDK_TYPE)));
    }
    let ghost p2g = p;
    e.insert(String::from_str("properties"), Value::Obj(p));
    proof {
        assert forall|k: Seq<char>| #![auto] k != "#sdk_version_name"@ && k != "#sdk_type"@
            implies slookup(p2g@, k) == slookup(p0@, k) by {
            assert(p1.spec_get(k) == p0.spec_get(k));
            assert(p2g.spec_get(k) == p1.spec_get(k));
            assert(p2g.spec_get(k) == slookup(p2g@, k));
            assert(p0.spec_get(k) == slookup(p0@, k));
        }
        assert forall|k: Seq<char>| #![auto] k != "properties"@ implies slookup(e@, k) == slookup(
            old(e)@,
            k,
        ) by {
            assert(o1.spec_get(k) == old(e).spec_get(k));
            assert(e.spec_get(k) == o1.spec_get(k));
            assert(e.spec_get(k) == slookup(e@, k));
            assert(old(e).spec_get(k) == slookup(old(e)@, k));
        }
        assert(slookup(e@, "properties"@) == Some(SpecValue::Obj(p2g@)));
        assert(slookup(p2g@, "#sdk_version_name"@) matches Some(SpecValue::Str(v)) && v
            == BASE_VERSION@);
        assert(p1.spec_get("#sdk_type"@) == p0.spec_get("#sdk_type"@));
        assert(old(e).spec_get("properties"@) == Some(vview(Value::Obj(p0))));
    }
}

/// What the static-properties merge promises: each configured key is
/// copied into `properties` only when the event did not set it itself,
/// and a missing or non-object `properties` is replaced by a fresh
/// object built the same way.
pub open spec fn merge_rel(e: SpecEntries, r: SpecEntries, scp: Option<SpecEntries>) -> bool {
    match scp {
        None => r == e,
        Some(sp) => {
            &&& skeys_unique(r)
            &&& (slookup(r, "properties"@) matches Some(SpecValue::Obj(p2)) && {
                &&& skeys_unique(p2)
                &&& (match slookup(e, "properties"@) {
                    Some(SpecValue::Obj(p)) => forall|k: Seq<char>|
                        slookup(p2, k) == (if slookup(p, k) is Some {
                            slookup(p, k)
                        } else {
                            slookup(sp, k)
                        }),
                    _ => forall|k: Seq<char>| slookup(p2, k) == slookup(sp, k),
                })
            })
            &&& (forall|k: Seq<char>| k != "properties"@ ==> slookup(r, k) == slookup(e, k))
        },
    }
}

/// Copies each static common property into `p` unless already set.
#[verifier::loop_isolation(false)]
#[verifier::rlimit(60)]
fn merge_into(p: &mut Object, sp: &Object)
    requires
        old(p).keys_unique(),
        sp.keys_unique(),
    ensures
        final(p).keys_unique(),
        forall|k: Seq<char>|
            final(p).spec_get(k) == (if old(p).spec_contains(k) {
                old(p).spec_get(k)
            } else {
                sp.spec_get(k)
            }),
{
    let n = sp.entries.len();
    let mut i: usize = 0;
    while i < n
        invariant
            0 <= i <= n,
            n == sp.entries@.len(),
            n == sp@.len(),
            sp.keys_unique(),
            p.keys_unique(),
            forall|k: Seq<char>|
                p.spec_get(k) == (if old(p).spec_contains(k) {
                    old(p).spec_get(k)
                } else {
                    slookup(sp@.take(i as int), k)
                }),
        decreases n - i,
    {
        proof {
            assert(sp@[i as int] == (sp.entries@[i as int].0@, vview(sp.entries@[i as int].1)));
        }
        let key = &sp.entries[i].0;
        let ghost pprev = *p;
        if !p.contains_key(key.as_str()) {
            let val = sp.entries[i].1.deep_clone();
            p.insert(key.clone(), val);
        }
        proof {
            assert(sp@.take(i + 1) =~= sp@.take(i as int).push(sp@[i as int]));
            assert(forall|j: int| 0 <= j < i ==> sp@.take(i as int)[j].0 != sp@[i as int].0);
            crate::value::lemma_slookup_none(sp@.take(i as int), sp@[i as int].0);
            assert forall|k: Seq<char>| #![trigger p.spec_get(k)] true implies p.spec_get(k) == (
            if old(p).spec_contains(k) {
                old(p).spec_get(k)
            } else {
                slookup(sp@.take(i + 1), k)
            }) by {
                crate::value::lemma_slookup_snoc(sp@.take(i as int), sp@[i as int], k);
                assert(pprev.spec_get(k) == (if old(p).spec_contains(k) {
                    old(p).spec_get(k)
                } else {
                    slookup(sp@.take(i as int), k)
                }));
                if k == sp@[i as int].0 {
                    assert(slookup(sp@.take(i as int), k) is None);
                    if pprev.spec_contains(k) {
                        assert(old(p).spec_contains(k));
                        assert(p.spec_get(k) == pprev.spec_get(k));
                    } else {
                        assert(!old(p).spec_contains(k));
                        assert(p.spec_get(k) == Some(sp@[i as int].1));
                        assert(slookup(sp@.take(i + 1), k) == Some(sp@[i as int].1));
                    }
                } else {
                    assert(p.spec_get(k) == pprev.spec_get(k));
                    assert(slookup(sp@.take(i + 1), k) == slookup(sp@.take(i as int), k));
                }
            }
        }
        i = i + 1;
    }
    proof {
        assert(sp@.take(n as int) =~= sp@);
    }
}

/// Merges the configured static common properties into the event.
pub fn fulfill_by_comm_props(e: &mut Object, scp: &Option<Object>)
    requires
        old(e).keys_unique(),
        old(e).spec_get("properties"@) matches Some(SpecValue::Obj(p)) ==> skeys_unique(p),
        scp matches Some(sp) ==> sp.keys_unique(),
    ensures
        merge_rel(old(e)@, final(e)@, opt_obj_view(*scp)),
        final(e).keys_unique(),
{
    proof {
        lemma_meta_literals();
    }
    let sp = match scp {
        None => {
            return;
        },
        Some(sp) => sp,
    };
    let taken = e.remove("properties");
    let ghost o1 = *e;
    let mut p = match taken {
        Some(Value::Obj(p)) => p,
        _ => Object::new(),
    };
    let ghost p0 = p;
    proof {
        assert(p.keys_unique());
    }
    merge_into(&mut p, sp);
    let ghost pm = p;
    e.insert(String::from_str("properties"), Value::Obj(p));
    proof {
        assert forall|k: Seq<char>| #![auto] true implies slookup(pm@, k) == (if slookup(p0@, k)
            is Some {
            slookup(p0@, k)
        } else {
            slookup(sp@, k)
        }) by {
            assert(pm.spec_get(k) == (if p0.spec_contains(k) {
                p0.spec_get(k)
            } else {
                sp.spec_get(k)
            }));
            assert(pm.spec_get(k) == slookup(pm@, k));
            assert(p0.spec_get(k) == slookup(p0@, k));
            assert(sp.spec_get(k) == slookup(sp@, k));
        }
        assert forall|k: Seq<char>| #![auto] k != "properties"@ implies slookup(e@, k) == slookup(
            old(e)@,
            k,
        ) by {
            assert(o1.spec_get(k) == old(e).spec_get(k));
            assert(e.spec_get(k) == o1.spec_get(k));
            assert(e.spec_get(k) == slookup(e@, k));
            assert(old(e).spec_get(k) == slookup(old(e)@, k));
        }
        assert(slookup(e@, "properties"@) == Some(SpecValue::Obj(pm@)));
        match old(e).spec_get("properties"@) {
            Some(SpecValue::Obj(pp)) => {
                assert(old(e).spec_get("properties"@) == Some(vview(Value::Obj(p0))));
                assert(pp == p0@);
            },
            _ => {
                assert forall|k: Seq<char>| #![auto] true implies slookup(pm@, k) == slookup(
                    sp@,
                    k,
                ) by {
                    assert(!p0.spec_contains(k));
                }
            },
        }
    }
}

/// The abstraction of an optional static-properties object.
pub open spec fn opt_obj_view(o: Option<Object>) -> Option<SpecEntries> {
    match o {
        Some(x) => Some(x@),
        None => None,
    }
}

/// How the whole pipeline transforms its input: reshape, fill metas,
/// stamp the SDK pair, merge static properties, in that order.
pub open spec fn process_rel(
    e: SpecEntries,
    res: SpecEntries,
    now_ms: u64,
    syn: Seq<char>,
    debug: bool,
    scp: Option<SpecEntries>,
) -> bool {
    exists|e1: SpecEntries, e2: SpecEntries, e3: SpecEntries|
        {
            &&& #[trigger] eventify_rel(e, e1)
            &&& #[trigger] fulfill_rel(e1, e2, now_ms, syn, debug)
            &&& #[trigger] inject_rel(e2, e3)
            &&& merge_rel(e3, res, scp)
        }
}

/// Runs the pipeline on one event with the clock value and sync token
/// already drawn. Succeeds exactly when the enriched event passes
/// verification; a failed verification is wrapped with context around
/// the `VerifyError`.
pub fn process_event_with(
    e: Object,
    now_ms: u64,
    syn: String,
    debug: bool,
    scp: &Option<Object>,
) -> (r: Result<Object, DTError>)
    requires
        e.keys_unique(),
        e.spec_get("properties"@) matches Some(SpecValue::Obj(p)) ==> skeys_unique(p),
        scp matches Some(sp) ==> sp.keys_unique(),
    ensures
        r matches Ok(res) ==> process_rel(e@, res@, now_ms, syn@, debug, opt_obj_view(*scp))
            && spec_valid_event(res@) && res.keys_unique(),
        r matches Err(er) ==> er matches DTError::WithContext { cause, .. } && *cause
            is VerifyError,
        r is Err ==> exists|res: SpecEntries|
            #[trigger] process_rel(e@, res, now_ms, syn@, debug, opt_obj_view(*scp))
                && !spec_valid_event(res),
{
    let ghost e0 = e@;
    let ghost syn0 = syn@;
    let mut event = eventify(e);
    let ghost e1 = event@;
    fulfill_metas(&mut event, now_ms, syn, debug);
    let ghost e2 = event@;
    proof {
        lemma_meta_literals();
        lemma_props_unique_after(e0, e1, e2, now_ms, syn0, debug);
    }
    inject_sdk_base_info(&mut event);
    let ghost e3 = event@;
    fulfill_by_comm_props(&mut event, scp);
    proof {
        assert(eventify_rel(e0, e1));
        assert(fulfill_rel(e1, e2, now_ms, syn0, debug));
        assert(inject_rel(e2, e3));
        assert(process_rel(e0, event@, now_ms, syn0, debug, opt_obj_view(*scp)));
    }
    match verify_event(&event) {
        Ok(_) => Ok(event),
        Err(cause) => Err(
            DTError::WithContext {
                context: String::from_str("verification failed for this event"),
                cause: Box::new(cause),
            },
        ),
    }
}


/// Runs the pipeline on one event, drawing the clock value and a fresh
/// sync token from the environment. Whatever those come back as, only
/// an enriched event that passes verification is returned.
pub fn process_event(e: Object, debug: bool, scp: &Option<Object>) -> (r: Result<Object, DTError>)
    requires
        e.keys_unique(),
        e.spec_get("properties"@) matches Some(SpecValue::Obj(p)) ==> skeys_unique(p),
        scp matches Some(sp) ==> sp.keys_unique(),
    ensures
        r matches Ok(res) ==> spec_valid_event(res@) && res.keys_unique(),
        r matches Err(er) ==> er matches DTError::WithContext { cause, .. } && *cause
            is VerifyError,
        r is Err ==> exists|res: SpecEntries, now: u64, syn: Seq<char>|
            #[trigger] process_rel(e@, res, now, syn, debug, opt_obj_view(*scp))
                && !spec_valid_event(res),
{
    let now_ms = crate::clock::get_time_since_epoch();
    let syn = crate::token::new_syn_token();
    let ghost syn_view = syn@;
    let r = process_event_with(e, now_ms, syn, debug, scp);
    proof {
        if r is Err {
            let res = choose|res: SpecEntries|
                #[trigger] process_rel(e@, res, now_ms, syn_view, debug, opt_obj_view(*scp))
                    && !spec_valid_event(res);
            assert(process_rel(e@, res, now_ms, syn_view, debug, opt_obj_view(*scp))
                && !spec_valid_event(res));
        }
    }
    r
}

/// After reshaping and meta-filling, the nested `properties` object of
/// a well-formed input has distinct keys.
proof fn lemma_props_unique_after(
    e0: SpecEntries,
    e1: SpecEntries,
    e2: SpecEntries,
    now_ms: u64,
    syn: Seq<char>,
    debug: bool,
)
    requires
        skeys_unique(e0),
        slookup(e0, "properties"@) matches Some(SpecValue::Obj(p)) ==> skeys_unique(p),
        eventify_rel(e0, e1),
        fulfill_rel(e1, e2, now_ms, syn, debug),
    ensures
        slookup(e2, "properties"@) matches Some(SpecValue::Obj(p)) ==> skeys_unique(p),
{
}

} // verus!
