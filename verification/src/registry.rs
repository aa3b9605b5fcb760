use vstd::prelude::*;
use crate::clock::{get_time_since_epoch, hour_bucket, spec_hour_bucket};
use crate::codec::{byte_len, spec_ser};
use crate::error::DTError;
use crate::log_consumer::{
    spec_log_add_post, spec_log_config_matches, spec_log_config_ok, spec_records_accounted,
    spec_filename, FlushOp, LogConfig, LogConsumer,
};
use crate::mmap_consumer::{
    spec_append_post, spec_drain_ops, spec_mmap_config_matches, spec_mmap_config_ok, MmapConfig,
    MmapLogConsumer, MmapOp,
};
use crate::process::{opt_obj_view, process_event_with, process_rel};
use crate::text::{spec_eq_ignore_ascii_case, str_eq_ignore_ascii_case};
use crate::token::new_syn_token;
use crate::value::{skeys_unique, slookup, Object, SpecEntries, SpecValue, Value};
use crate::verify::spec_valid_event;

verus! {

/// The one active sink of the process: a closed sum over the known
/// consumer kinds, dispatched by pattern match.
pub enum Consumer {
    Log(LogConsumer),
    Mmap(MmapLogConsumer),
}

/// What one call decided to do to the outside world: file writes of
/// the buffered writer, or operations on the mapped log.
pub enum Effect {
    LogOps(Vec<FlushOp>),
    MmapOps(Vec<MmapOp>),
}

/// Which consumer a configuration selects, with its parsed settings.
pub enum InitPlan {
    Log { cfg: LogConfig, debug: bool },
    Mmap { cfg: MmapConfig, debug: bool },
}

/// Whether a `_debug` flag is set in the configuration.
pub open spec fn spec_debug_flag(c: SpecEntries) -> bool {
    slookup(c, "_debug"@) == Some(SpecValue::Bool(true))
}

/// The configuration selects the consumer named `kind` (the name is
/// compared up to ASCII case).
pub open spec fn spec_selects(c: SpecEntries, kind: Seq<char>) -> bool {
    slookup(c, "consumer"@) matches Some(SpecValue::Str(s)) && spec_eq_ignore_ascii_case(s, kind)
}

/// A configuration initializes successfully: it selects a known
/// consumer and that consumer's own keys parse.
pub open spec fn spec_init_config_ok(c: SpecEntries) -> bool {
    ||| (spec_selects(c, "log"@) && spec_log_config_ok(c))
    ||| (spec_selects(c, "mmap-log"@) && spec_mmap_config_ok(c))
}

/// The application context: the registry holding at most one active
/// consumer, the process-wide debug flag, the static common
/// properties, and the logger settings. The shell owns one instance
/// behind its own lock and passes it into every entry point.
pub struct DtCore {
    pub consumer: Option<Consumer>,
    pub debug: bool,
    pub static_props: Option<Object>,
    pub log_enabled: bool,
    pub log_level: i8,
}

/// The context's consumers keep their internal invariants and the
/// static properties have distinct keys.
pub open spec fn core_wf(c: DtCore) -> bool {
    &&& (c.consumer matches Some(Consumer::Mmap(m)) ==> m.wf())
    &&& (c.static_props matches Some(sp) ==> skeys_unique(sp@))
}

/// The pipeline on `ev` (with this clock value and token, under this
/// context) can produce `res`.
pub open spec fn spec_pipeline(
    c: DtCore,
    ev: SpecEntries,
    now_ms: u64,
    syn: Seq<char>,
    res: SpecEntries,
) -> bool {
    process_rel(ev, res, now_ms, syn, c.debug, opt_obj_view(c.static_props))
}

/// How the buffered writer packages one flush or close: its batch is
/// drained into exactly one write of those lines (none when it was
/// already empty), and no record is gained or lost.
pub open spec fn spec_log_drain_effect(c1: LogConsumer, c2: LogConsumer, ops: Seq<FlushOp>) -> bool {
    &&& c2.batch@.len() == 0
    &&& spec_records_accounted(c2) == spec_records_accounted(c1)
    &&& (c1.batch@.len() > 0 ==> ops.len() == 1 && ops[0].lines@ == c1.batch@ && ops[0].filename@
        == spec_filename(c1.spec_prefix(), c1.file_time, c1.revision))
    &&& (c1.batch@.len() == 0 ==> ops.len() == 0)
}

/// How the mapped log packages one incremental flush: exactly the
/// range written since the last flush (nothing when it is empty).
pub open spec fn spec_mmap_flush_effect(
    c1: MmapLogConsumer,
    c2: MmapLogConsumer,
    ops: Seq<MmapOp>,
) -> bool {
    &&& c2.flush_offset == c2.offset
    &&& c2.offset == c1.offset
    &&& c2.revision == c1.revision
    &&& c2.file_time == c1.file_time
    &&& (c1.offset > c1.flush_offset ==> ops.len() == 1 && (ops[0] matches MmapOp::FlushRange {
        filename,
        offset,
        len,
        is_async,
    } && offset == c1.flush_offset && len == c1.offset - c1.flush_offset && is_async && filename@
        == spec_filename(c1.name_prefix@, c1.file_time, c1.revision)))
    &&& (c1.offset <= c1.flush_offset ==> ops.len() == 0)
}

impl DtCore {
    pub fn new() -> (r: DtCore)
        ensures
            r.consumer is None,
            !r.debug,
            r.static_props is None,
            !r.log_enabled,
            r.log_level == 0,
            core_wf(r),
    {
        DtCore { consumer: None, debug: false, static_props: None, log_enabled: false, log_level: 0 }
    }

    /// Parses an initialization configuration into a consumer plan:
    /// success exactly when no consumer is installed yet, `consumer`
    /// names `log` or `mmap-log` (up to ASCII case), and the named
    /// consumer's own keys parse; any other shortfall of the document
    /// is a `HostError`, a second initialization a `RuntimeError`.
    pub fn init_by_config(&self, config: &Object) -> (r: Result<InitPlan, DTError>)
        ensures
            self.consumer is Some ==> (r matches Err(er) && er is RuntimeError),
            self.consumer is None ==> (r is Ok) == spec_init_config_ok(config@),
            self.consumer is None ==> (r matches Err(er) ==> er is HostError),
            r matches Ok(plan) ==> {
                &&& (plan matches InitPlan::Log { cfg, debug } ==> spec_selects(config@, "log"@)
                    && spec_log_config_matches(config@, cfg) && debug == spec_debug_flag(config@))
                &&& (plan matches InitPlan::Mmap { cfg, debug } ==> spec_selects(
                    config@,
                    "mmap-log"@,
                ) && spec_mmap_config_matches(config@, cfg) && debug == spec_debug_flag(config@))
            },
    {
        proof {
            reveal_strlit("log");
            reveal_strlit("mmap-log");
            assert("log"@.len() == 3);
            assert("mmap-log"@.len() == 8);
        }
        if self.consumer.is_some() {
            return Err(
                DTError::RuntimeError(
                    String::from_str("consumer can only be initialized once"),
                ),
            );
        }
        let debug = match config.get("_debug") {
            Some(Value::Bool(b)) => *b,
            _ => false,
        };
        let kind = match config.get("consumer") {
            Some(Value::Str(s)) => s,
            _ => {
                return Err(
                    DTError::HostError(
                        String::from_str(
                            "initialization config is missing 'consumer' or its type is not valid",
                        ),
                    ),
                );
            },
        };
        if str_eq_ignore_ascii_case(kind.as_str(), "log") {
            match LogConsumer::from_config(config) {
                Ok(cfg) => Ok(InitPlan::Log { cfg, debug }),
                Err(er) => Err(er),
            }
        } else if str_eq_ignore_ascii_case(kind.as_str(), "mmap-log") {
            match MmapLogConsumer::from_config(config) {
                Ok(cfg) => Ok(InitPlan::Mmap { cfg, debug }),
                Err(er) => Err(er),
            }
        } else {
            Err(
                DTError::HostError(
                    String::from_str(
                        "initialization config has 'consumer' but it's out of domain",
                    ),
                ),
            )
        }
    }

    /// Installs the consumer the shell built from the plan. Fails with
    /// a runtime error exactly when one is already installed.
    pub fn install(&mut self, consumer: Consumer, debug: bool) -> (r: Result<(), DTError>)
        requires
            core_wf(*old(self)),
            consumer matches Consumer::Mmap(m) ==> m.wf(),
        ensures
            core_wf(*final(self)),
            (r is Ok) == (old(self).consumer is None),
            r matches Err(er) ==> er is RuntimeError && *final(self) == *old(self),
            r is Ok ==> final(self).consumer == Some(consumer) && final(self).debug == debug
                && final(self).static_props == old(self).static_props,
    {
        if self.consumer.is_some() {
            return Err(
                DTError::RuntimeError(
                    String::from_str("consumer can only be initialized once"),
                ),
            );
        }
        self.consumer = Some(consumer);
        self.debug = debug;
        Ok(())
    }

    /// Accepts one event with the clock value and sync token already
    /// drawn: the pipeline runs synchronously, and the installed
    /// consumer receives exactly the validated, enriched event - the
    /// returned effect is that consumer's own operations for this
    /// record, and the stored consumer advances by exactly this
    /// record. A missing consumer is a runtime error; an enriched
    /// event that fails verification never reaches the consumer.
    pub fn add_aux(&mut self, event: Object, now_ms: u64, syn: String) -> (r: Result<
        Effect,
        DTError,
    >)
        requires
            core_wf(*old(self)),
            skeys_unique(event@),
            event.spec_get("properties"@) matches Some(SpecValue::Obj(p)) ==> skeys_unique(p),
        ensures
            core_wf(*final(self)),
            final(self).debug == old(self).debug,
            final(self).static_props == old(self).static_props,
            old(self).consumer is None ==> (r matches Err(er) && er is RuntimeError
                && *final(self) == *old(self)),
            r matches Err(DTError::WithContext { cause, .. }) ==> *cause is VerifyError
                && *final(self) == *old(self) && (exists|res: SpecEntries|
                #[trigger] spec_pipeline(*old(self), event@, now_ms, syn@, res)
                    && !spec_valid_event(res)),
            old(self).consumer matches Some(Consumer::Log(c1)) ==> {
                &&& (r matches Err(er) ==> er is WithContext)
                &&& (r matches Ok(eff) ==> (eff matches Effect::LogOps(ops)
                    && final(self).consumer matches Some(Consumer::Log(c2)) && (exists|
                    res: SpecEntries,
                |
                    #[trigger] spec_pipeline(*old(self), event@, now_ms, syn@, res)
                        && spec_valid_event(res) && spec_log_add_post(
                        c1,
                        c2,
                        res,
                        spec_hour_bucket(now_ms),
                        ops@,
                    ))))
            },
            old(self).consumer matches Some(Consumer::Mmap(c1)) ==> {
                &&& (r matches Err(DTError::RuntimeError(m)) ==> final(self).consumer
                    == old(self).consumer && (exists|res: SpecEntries|
                    #[trigger] spec_pipeline(*old(self), event@, now_ms, syn@, res)
                        && spec_valid_event(res) && byte_len(spec_ser(SpecValue::Obj(res)))
                        > c1.size))
                &&& (r matches Ok(eff) ==> (eff matches Effect::MmapOps(ops)
                    && final(self).consumer matches Some(Consumer::Mmap(c2)) && (exists|
                    res: SpecEntries,
                |
                    #[trigger] spec_pipeline(*old(self), event@, now_ms, syn@, res)
                        && spec_valid_event(res) && spec_append_post(
                        c1,
                        c2,
                        spec_ser(SpecValue::Obj(res)),
                        false,
                        spec_hour_bucket(now_ms),
                        Seq::<MmapOp>::empty(),
                        ops@,
                    ))))
            },
    {
        let ghost ev0 = event;
        let ghost syn0 = syn@;
        if self.consumer.is_none() {
            return Err(
                DTError::RuntimeError(
                    String::from_str("consumer should be initialized before API calls"),
                ),
            );
        }
        let processed = match process_event_with(
            event,
            now_ms,
            syn,
            self.debug,
            &self.static_props,
        ) {
            Ok(p) => p,
            Err(er) => {
                proof {
                    let res = choose|res: SpecEntries|
                        #[trigger] process_rel(
                            ev0@,
                            res,
                            now_ms,
                            syn0,
                            old(self).debug,
                            opt_obj_view(old(self).static_props),
                        ) && !spec_valid_event(res);
                    assert(spec_pipeline(*old(self), ev0@, now_ms, syn0, res)
                        && !spec_valid_event(res));
                }
                return Err(er);
            },
        };
        proof {
            assert(spec_pipeline(*old(self), ev0@, now_ms, syn0, processed@)
                && spec_valid_event(processed@));
        }
        let now_hour = hour_bucket(now_ms);
        let mut taken: Option<Consumer> = None;
        core::mem::swap(&mut self.consumer, &mut taken);
        match taken {
            Some(Consumer::Log(mut c)) => {
                let ghost c1g = c;
                let ops = c.add(&processed, now_hour);
                proof {
                    assert(spec_log_add_post(
                        c1g,
                        c,
                        processed@,
                        spec_hour_bucket(now_ms),
                        ops@,
                    ));
                }
                self.consumer = Some(Consumer::Log(c));
                Ok(Effect::LogOps(ops))
            },
            Some(Consumer::Mmap(mut c)) => {
                let ghost c1g = c;
                let mut ops: Vec<MmapOp> = Vec::new();
                let res = c.add(&processed, now_hour, &mut ops);
                proof {
                    if res is Ok {
                        assert(spec_append_post(
                            c1g,
                            c,
                            spec_ser(SpecValue::Obj(processed@)),
                            false,
                            spec_hour_bucket(now_ms),
                            Seq::<MmapOp>::empty(),
                            ops@,
                        ));
                    } else {
                        assert(byte_len(spec_ser(SpecValue::Obj(processed@))) > c1g.size);
                    }
                }
                self.consumer = Some(Consumer::Mmap(c));
                match res {
                    Ok(_) => Ok(Effect::MmapOps(ops)),
                    Err(er) => Err(er),
                }
            },
            None => Err(
                DTError::RuntimeError(
                    String::from_str("consumer should be initialized before API calls"),
                ),
            ),
        }
    }

    /// Accepts one event, drawing the clock value and a fresh sync
    /// token from the environment: whatever they come back as, the
    /// consumer receives exactly the validated, enriched event, as
    /// `add_aux` promises for those values.
    pub fn add(&mut self, event: Object) -> (r: Result<Effect, DTError>)
        requires
            core_wf(*old(self)),
            skeys_unique(event@),
            event.spec_get("properties"@) matches Some(SpecValue::Obj(p)) ==> skeys_unique(p),
        ensures
            core_wf(*final(self)),
            old(self).consumer is None ==> (r matches Err(er) && er is RuntimeError),
            r matches Err(DTError::WithContext { cause, .. }) ==> *cause is VerifyError,
            old(self).consumer matches Some(Consumer::Log(c1)) ==> (r matches Ok(eff) ==> (
            eff matches Effect::LogOps(ops) && final(self).consumer matches Some(Consumer::Log(c2))
                && (exists|res: SpecEntries, now: u64, syn: Seq<char>|
                #[trigger] spec_pipeline(*old(self), event@, now, syn, res) && spec_valid_event(
                    res,
                ) && spec_log_add_post(c1, c2, res, spec_hour_bucket(now), ops@)))),
            old(self).consumer matches Some(Consumer::Mmap(c1)) ==> (r matches Ok(eff) ==> (
            eff matches Effect::MmapOps(ops) && final(self).consumer matches Some(
                Consumer::Mmap(c2),
            ) && (exists|res: SpecEntries, now: u64, syn: Seq<char>|
                #[trigger] spec_pipeline(*old(self), event@, now, syn, res) && spec_valid_event(
                    res,
                ) && spec_append_post(
                    c1,
                    c2,
                    spec_ser(SpecValue::Obj(res)),
                    false,
                    spec_hour_bucket(now),
                    Seq::<MmapOp>::empty(),
                    ops@,
                )))),
    {
        let ghost ev0 = event;
        let now_ms = get_time_since_epoch();
        let syn = new_syn_token();
        let ghost syn0 = syn@;
        let r = self.add_aux(event, now_ms, syn);
        proof {
            match old(self).consumer {
                Some(Consumer::Log(c1)) => {
                    match (&r, &self.consumer) {
                        (Ok(Effect::LogOps(ops)), Some(Consumer::Log(c2))) => {
                            let res = choose|res: SpecEntries|
                                #[trigger] spec_pipeline(*old(self), ev0@, now_ms, syn0, res)
                                    && spec_valid_event(res) && spec_log_add_post(
                                    c1,
                                    *c2,
                                    res,
                                    spec_hour_bucket(now_ms),
                                    ops@,
                                );
                            assert(spec_pipeline(*old(self), ev0@, now_ms, syn0, res)
                                && spec_valid_event(res) && spec_log_add_post(
                                c1,
                                *c2,
                                res,
                                spec_hour_bucket(now_ms),
                                ops@,
                            ));
                        },
                        _ => {},
                    }
                },
                Some(Consumer::Mmap(c1)) => {
                    match (&r, &self.consumer) {
                        (Ok(Effect::MmapOps(ops)), Some(Consumer::Mmap(c2))) => {
                            let res = choose|res: SpecEntries|
                                #[trigger] spec_pipeline(*old(self), ev0@, now_ms, syn0, res)
                                    && spec_valid_event(res) && spec_append_post(
                                    c1,
                                    *c2,
                                    spec_ser(SpecValue::Obj(res)),
                                    false,
                                    spec_hour_bucket(now_ms),
                                    Seq::<MmapOp>::empty(),
                                    ops@,
                                );
                            assert(spec_pipeline(*old(self), ev0@, now_ms, syn0, res)
                                && spec_valid_event(res) && spec_append_post(
                                c1,
                                *c2,
                                spec_ser(SpecValue::Obj(res)),
                                false,
                                spec_hour_bucket(now_ms),
                                Seq::<MmapOp>::empty(),
                                ops@,
                            ));
                        },
                        _ => {},
                    }
                },
                None => {},
            }
        }
        r
    }

    /// Flushes the active consumer: the returned effect is exactly
    /// that consumer's own flush. Fails with a runtime error exactly
    /// when no consumer is installed.
    pub fn flush(&mut self) -> (r: Result<Effect, DTError>)
        requires
            core_wf(*old(self)),
        ensures
            core_wf(*final(self)),
            final(self).debug == old(self).debug,
            final(self).static_props == old(self).static_props,
            (old(self).consumer is None) == (r matches Err(er) && er is RuntimeError),
            old(self).consumer matches Some(Consumer::Log(c1)) ==> (r matches Ok(eff)
                && eff matches Effect::LogOps(ops) && final(self).consumer matches Some(
                Consumer::Log(c2),
            ) && spec_log_drain_effect(c1, c2, ops@)),
            old(self).consumer matches Some(Consumer::Mmap(c1)) ==> (r matches Ok(eff)
                && eff matches Effect::MmapOps(ops) && final(self).consumer matches Some(
                Consumer::Mmap(c2),
            ) && spec_mmap_flush_effect(c1, c2, ops@)),
    {
        let mut taken: Option<Consumer> = None;
        core::mem::swap(&mut self.consumer, &mut taken);
        match taken {
            Some(Consumer::Log(mut c)) => {
                let op = c.flush();
                self.consumer = Some(Consumer::Log(c));
                let mut ops: Vec<FlushOp> = Vec::new();
                match op {
                    Some(f) => {
                        ops.push(f);
                    },
                    None => {},
                }
                Ok(Effect::LogOps(ops))
            },
            Some(Consumer::Mmap(mut c)) => {
                let mut ops: Vec<MmapOp> = Vec::new();
                match c.flush(true) {
                    Some(o) => {
                        ops.push(o);
                    },
                    None => {},
                }
                self.consumer = Some(Consumer::Mmap(c));
                Ok(Effect::MmapOps(ops))
            },
            None => Err(
                DTError::RuntimeError(
                    String::from_str("consumer should be initialized before API calls"),
                ),
            ),
        }
    }

    /// Closes and removes the active consumer: the returned effect is
    /// exactly its final drain - the buffered writer's remaining batch,
    /// or the mapped log's synchronous flush and truncation - and
    /// afterwards no consumer is installed, so resources cannot be
    /// released twice. Fails with a runtime error exactly when none
    /// was installed.
    pub fn close(&mut self) -> (r: Result<Effect, DTError>)
        requires
            core_wf(*old(self)),
        ensures
            core_wf(*final(self)),
            final(self).debug == old(self).debug,
            final(self).static_props == old(self).static_props,
            (old(self).consumer is None) == (r matches Err(er) && er is RuntimeError),
            r is Ok ==> final(self).consumer is None,
            old(self).consumer matches Some(Consumer::Log(c1)) ==> (r matches Ok(eff) && (
            eff matches Effect::LogOps(ops) && (c1.batch@.len() > 0 ==> ops@.len() == 1
                && ops@[0].lines@ == c1.batch@ && ops@[0].filename@ == spec_filename(
                c1.spec_prefix(),
                c1.file_time,
                c1.revision,
            )) && (c1.batch@.len() == 0 ==> ops@.len() == 0))),
            old(self).consumer matches Some(Consumer::Mmap(c1)) ==> (r matches Ok(eff)
                && eff matches Effect::MmapOps(ops) && spec_drain_ops(
                c1,
                false,
                Seq::<MmapOp>::empty(),
                ops@,
            )),
    {
        let mut taken: Option<Consumer> = None;
        core::mem::swap(&mut self.consumer, &mut taken);
        match taken {
            Some(Consumer::Log(mut c)) => {
                let op = c.close();
                let mut ops: Vec<FlushOp> = Vec::new();
                match op {
                    Some(f) => {
                        ops.push(f);
                    },
                    None => {},
                }
                Ok(Effect::LogOps(ops))
            },
            Some(Consumer::Mmap(mut c)) => {
                let mut ops: Vec<MmapOp> = Vec::new();
                c.close(&mut ops);
                Ok(Effect::MmapOps(ops))
            },
            None => Err(
                DTError::RuntimeError(
                    String::from_str("consumer should be initialized before API calls"),
                ),
            ),
        }
    }

    /// Replaces the static common properties.
    pub fn set_static_common_props(&mut self, props: Object) -> (r: Result<(), DTError>)
        requires
            core_wf(*old(self)),
            skeys_unique(props@),
        ensures
            core_wf(*final(self)),
            r is Ok,
            final(self).static_props == Some(props),
            final(self).consumer == old(self).consumer,
            final(self).debug == old(self).debug,
    {
        self.static_props = Some(props);
        Ok(())
    }

    /// Clears the static common properties.
    pub fn clear_static_common_props(&mut self) -> (r: Result<(), DTError>)
        requires
            core_wf(*old(self)),
        ensures
            core_wf(*final(self)),
            r is Ok,
            final(self).static_props is None,
            final(self).consumer == old(self).consumer,
            final(self).debug == old(self).debug,
    {
        self.static_props = None;
        Ok(())
    }

    /// Switches the diagnostic logger on or off.
    pub fn toggle_logger(&mut self, enabled: bool)
        requires
            core_wf(*old(self)),
        ensures
            core_wf(*final(self)),
            final(self).log_enabled == enabled,
            final(self).consumer == old(self).consumer,
            final(self).debug == old(self).debug,
            final(self).static_props == old(self).static_props,
    {
        self.log_enabled = enabled;
    }
}

/// Whether a diagnostic of the given level may be printed under the
/// given logger settings.
pub fn can_log(enabled: bool, min_level: i8, level: i8, ignore_enable: bool) -> (r: bool)
    ensures
        r == ((ignore_enable || enabled) && level >= min_level),
{
    (ignore_enable || enabled) && level >= min_level
}

} // verus!
