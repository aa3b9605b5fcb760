use vstd::prelude::*;
use crate::codec::{byte_len, spec_ser, to_json_object};
use crate::error::DTError;
use crate::log_consumer::{make_filename, scan_revisions, spec_dir_view, spec_filename, spec_scan};
use crate::value::{slookup, Object, SpecValue, Value};

verus! {

broadcast use {vstd::std_specs::vec::group_vec_axioms, vstd::seq::group_seq_axioms};

/// One pending operation on the mapped log file. The shell applies
/// them in order: ensure a file of the fixed arena size exists and map
/// it, copy bytes at an offset, flush a byte range, or truncate the
/// file to its used length.
pub enum MmapOp {
    Open { filename: String, size: u64 },
    WriteAt { filename: String, offset: u64, content: String },
    FlushRange { filename: String, offset: u64, len: u64, is_async: bool },
    Truncate { filename: String, len: u64 },
}

/// The configuration of the memory-mapped rotating append log.
pub struct MmapConfig {
    pub path: String,
    pub name_prefix: String,
    pub file_size: u64,
    pub flush_size: Option<u64>,
}

/// The default arena size when the host does not configure one.
pub const DEFAULT_FILE_SIZE: u64 = 2097152;

/// The memory-mapped rotating append log. It owns no map itself: every
/// byte movement it decides on is handed back as an `MmapOp`. The
/// ghost pair `base`/`appended` records where writing resumed in the
/// current file and how many bytes of records and separators have been
/// appended since - together they pin the write offset down.
pub struct MmapLogConsumer {
    pub path: String,
    pub name_prefix: String,
    pub size: u64,
    pub flush_size: Option<u64>,
    pub offset: u64,
    pub file_time: u64,
    pub revision: u16,
    pub flush_offset: u64,
    pub base: Ghost<int>,
    pub appended: Ghost<int>,
}

/// How many operations draining one outgoing file takes.
pub open spec fn spec_drain_len(c: MmapLogConsumer) -> int {
    (if c.offset > c.flush_offset {
        1int
    } else {
        0int
    }) + (if c.offset != c.size {
        1int
    } else {
        0int
    })
}

/// The operations that drain one outgoing file: the range between
/// the last flush and the write offset is flushed (when non-empty),
/// then the file is truncated to exactly the write offset (when it
/// is under the arena size). Earlier queued operations stay as
/// they were.
pub open spec fn spec_drain_ops(
    c: MmapLogConsumer,
    is_async: bool,
    ops0: Seq<MmapOp>,
    ops2: Seq<MmapOp>,
) -> bool {
    let nf: int = if c.offset > c.flush_offset {
        1
    } else {
        0
    };
    let nt: int = if c.offset != c.size {
        1
    } else {
        0
    };
    &&& ops2.len() == ops0.len() + nf + nt
    &&& (forall|j: int| 0 <= j < ops0.len() ==> ops2[j] == ops0[j])
    &&& (nf == 1 ==> (ops2[ops0.len() as int] matches MmapOp::FlushRange {
        filename,
        offset,
        len,
        is_async: a,
    } && offset == c.flush_offset && len == c.offset - c.flush_offset && a == is_async
        && filename@ == spec_filename(c.name_prefix@, c.file_time, c.revision)))
    &&& (nt == 1 ==> (ops2[ops0.len() + nf] matches MmapOp::Truncate { filename, len } && len
        == c.offset && filename@ == spec_filename(c.name_prefix@, c.file_time, c.revision)))
}


/// Everything one successful append does, whatever rotations it took:
/// the hour bucket is made current first, the record (plus a one-byte
/// separator when not writing at the start of a file) moves to the
/// next revision when it does not fit the remaining arena - draining
/// and truncating the outgoing file - the bytes are written at the
/// running offset, and the flush offset advances exactly when a flush
/// was forced or the unflushed span reached the threshold.
pub open spec fn spec_append_post(
    c0: MmapLogConsumer,
    c2: MmapLogConsumer,
    content: Seq<char>,
    force_flush: bool,
    now_hour: u64,
    ops0: Seq<MmapOp>,
    ops2: Seq<MmapOp>,
) -> bool {
    let bl = byte_len(content);
    let tr = now_hour > c0.file_time;
    let ft1 = if tr {
        now_hour
    } else {
        c0.file_time
    };
    let rev1: u16 = if tr {
        0u16
    } else {
        c0.revision
    };
    let off1: int = if tr {
        0int
    } else {
        c0.offset as int
    };
    let fo1: int = if tr {
        0int
    } else {
        c0.flush_offset as int
    };
    let sep1: int = if off1 == 0 {
        0int
    } else {
        1int
    };
    let sr = off1 + sep1 + bl > c0.size;
    let rev2: u16 = if sr {
        if rev1 < u16::MAX {
            (rev1 + 1) as u16
        } else {
            u16::MAX
        }
    } else {
        rev1
    };
    let start: int = if sr {
        0int
    } else {
        off1
    };
    let fo2: int = if sr {
        0int
    } else {
        fo1
    };
    let sep: int = if start == 0 {
        0int
    } else {
        1int
    };
    let should = force_flush || (c0.flush_size matches Some(fs) && start + sep + bl - fo2 >= fs);
    &&& c2.file_time == ft1
    &&& c2.revision == rev2
    &&& c2.offset == start + sep + bl
    &&& c2.flush_offset == (if should {
        c2.offset as int
    } else {
        fo2
    })
    &&& ops2.len() > ops0.len()
    &&& (forall|j: int| 0 <= j < ops0.len() ==> ops2[j] == ops0[j])
    &&& (exists|j: int|
        ops0.len() <= j < ops2.len() && ((#[trigger] ops2[j]) matches MmapOp::WriteAt {
            filename,
            offset,
            content: body,
        } && offset == start && body@ == (if sep == 0 {
            content
        } else {
            seq!['\n'] + content
        }) && filename@ == spec_filename(c0.name_prefix@, ft1, rev2)))
    &&& ((tr || sr) && c0.offset != c0.size ==> exists|j: int|
        ops0.len() <= j < ops2.len() && ((#[trigger] ops2[j]) matches MmapOp::Truncate {
            filename,
            len,
        } && len == c0.offset && filename@ == spec_filename(
            c0.name_prefix@,
            c0.file_time,
            c0.revision,
        )))
    &&& (should && c2.offset > fo2 ==> exists|j: int|
        ops0.len() <= j < ops2.len() && ((#[trigger] ops2[j]) matches MmapOp::FlushRange {
            filename,
            offset,
            len,
            is_async,
        } && offset == fo2 && len == c2.offset - fo2 && is_async && filename@ == spec_filename(
            c0.name_prefix@,
            ft1,
            rev2,
        )))
}

impl MmapLogConsumer {
    /// Offsets never run backwards and stay within the arena, and the
    /// write offset is exactly the resume point plus every appended
    /// record byte and separator - the truncated length of a file on
    /// rotation or close leaks no padding.
    pub open spec fn wf(&self) -> bool {
        &&& self.flush_offset <= self.offset <= self.size
        &&& self.offset == self.base@ + self.appended@
        &&& 0 <= self.base@
        &&& 0 <= self.appended@
    }

    /// The name of the file currently mapped.
    pub fn get_filename(&self) -> (r: String)
        ensures
            r@ == spec_filename(self.name_prefix@, self.file_time, self.revision),
    {
        make_filename(self.name_prefix.as_str(), self.file_time, self.revision)
    }

    /// The highest revision of this prefix and hour among the names
    /// the shell found in the directory.
    pub fn get_init_revision(names: &Vec<String>, prefix: &str, file_time: u64) -> (r: u16)
        ensures
            r == spec_scan(
                names@.map_values(|n: String| (n@, 0u64)),
                prefix@,
                file_time,
            ).0,
    {
        let n = names.len();
        let mut pairs: Vec<(String, u64)> = Vec::new();
        let mut i: usize = 0;
        while i < n
            invariant
                0 <= i <= n,
                n == names@.len(),
                pairs@.len() == i,
                forall|j: int|
                    0 <= j < i ==> (#[trigger] pairs@[j]).0@ == names@[j]@ && pairs@[j].1 == 0u64,
            decreases n - i,
        {
            pairs.push((names[i].clone(), 0u64));
            i = i + 1;
        }
        let scanned = scan_revisions(&pairs, prefix, file_time);
        proof {
            assert(spec_dir_view(pairs@) =~= names@.map_values(|nm: String| (nm@, 0u64)));
        }
        scanned.0
    }

    /// Builds a consumer resuming at the offset the shell probed (the
    /// position of the first zero byte of the mapped file).
    pub fn new(cfg: MmapConfig, file_time: u64, revision: u16, resume_offset: u64) -> (r:
        MmapLogConsumer)
        requires
            resume_offset <= cfg.file_size,
        ensures
            r.wf(),
            r.path == cfg.path,
            r.name_prefix == cfg.name_prefix,
            r.size == cfg.file_size,
            r.flush_size == cfg.flush_size,
            r.offset == resume_offset,
            r.flush_offset == resume_offset,
            r.file_time == file_time,
            r.revision == revision,
            r.appended@ == 0,
    {
        MmapLogConsumer {
            path: cfg.path,
            name_prefix: cfg.name_prefix,
            size: cfg.file_size,
            flush_size: cfg.flush_size,
            offset: resume_offset,
            file_time,
            revision,
            flush_offset: resume_offset,
            base: Ghost(resume_offset as int),
            appended: Ghost(0int),
        }
    }

    /// Called by the shell when a freshly opened file turns out to
    /// hold data already: resume writing after it.
    pub fn resume_at(&mut self, offset: u64)
        requires
            old(self).wf(),
            offset <= old(self).size,
        ensures
            final(self).wf(),
            final(self).offset == offset,
            final(self).flush_offset == offset,
            final(self).appended@ == 0,
            final(self).path == old(self).path,
            final(self).name_prefix == old(self).name_prefix,
            final(self).size == old(self).size,
            final(self).flush_size == old(self).flush_size,
            final(self).file_time == old(self).file_time,
            final(self).revision == old(self).revision,
    {
        self.offset = offset;
        self.flush_offset = offset;
        proof {
            self.base@ = offset as int;
            self.appended@ = 0;
        }
    }

    /// Flushes only the byte range written since the last flush, so
    /// flush cost is bounded by the incremental write volume. The
    /// range length `offset - flush_offset` can never underflow.
    pub fn flush(&mut self, is_async: bool) -> (op: Option<MmapOp>)
        requires
            old(self).wf(),
        ensures
            final(self).wf(),
            match op {
                Some(o) => old(self).offset > old(self).flush_offset && (o matches
                    MmapOp::FlushRange { filename, offset, len, is_async: a } && offset == old(
                    self,
                ).flush_offset && len == old(self).offset - old(self).flush_offset && a
                    == is_async && filename@ == spec_filename(
                    old(self).name_prefix@,
                    old(self).file_time,
                    old(self).revision,
                )),
                None => old(self).offset == old(self).flush_offset,
            },
            final(self).flush_offset == final(self).offset,
            final(self).offset == old(self).offset,
            final(self).revision == old(self).revision,
            final(self).file_time == old(self).file_time,
            final(self).size == old(self).size,
            final(self).path == old(self).path,
            final(self).name_prefix == old(self).name_prefix,
            final(self).flush_size == old(self).flush_size,
            final(self).appended@ == old(self).appended@,
    {
        let length = self.offset - self.flush_offset;
        if length == 0 {
            return None;
        }
        let filename = self.get_filename();
        let start = self.flush_offset;
        self.flush_offset = self.offset;
        Some(MmapOp::FlushRange { filename, offset: start, len: length, is_async })
    }

    /// Flushes the rest and truncates the outgoing file down to its
    /// used length, so no zero padding leaks into the logical log: the
    /// unflushed range is flushed first, then the file is cut to the
    /// written length.
    pub fn flush_rest_and_truncate(&mut self, is_async: bool, ops: &mut Vec<MmapOp>)
        requires
            old(self).wf(),
        ensures
            final(self).wf(),
            final(self).flush_offset == final(self).offset,
            final(self).offset == old(self).offset,
            final(self).revision == old(self).revision,
            final(self).file_time == old(self).file_time,
            final(self).size == old(self).size,
            final(self).path == old(self).path,
            final(self).name_prefix == old(self).name_prefix,
            final(self).flush_size == old(self).flush_size,
            final(self).appended@ == old(self).appended@,
            spec_drain_ops(*old(self), is_async, old(ops)@, final(ops)@),
    {
        match self.flush(is_async) {
            Some(o) => {
                ops.push(o);
            },
            None => {},
        }
        if self.offset != self.size {
            let filename = self.get_filename();
            ops.push(MmapOp::Truncate { filename, len: self.offset });
        }
    }

    /// Moves to a new file: by time (new hour bucket, revision zero)
    /// or by size (next revision). The outgoing file is flushed and
    /// truncated first; the fresh file starts empty.
    fn update_mmap(&mut self, by_size: bool, now_hour: u64, ops: &mut Vec<MmapOp>)
        requires
            old(self).wf(),
        ensures
            final(self).wf(),
            final(self).offset == 0,
            final(self).flush_offset == 0,
            final(self).appended@ == 0,
            final(self).size == old(self).size,
            final(self).path == old(self).path,
            final(self).name_prefix == old(self).name_prefix,
            final(self).flush_size == old(self).flush_size,
            by_size ==> final(self).file_time == old(self).file_time && final(self).revision == (
            if old(self).revision < u16::MAX {
                (old(self).revision + 1) as u16
            } else {
                u16::MAX
            }),
            !by_size ==> final(self).file_time == now_hour && final(self).revision == 0,
            final(ops)@.len() == old(ops)@.len() + spec_drain_len(*old(self)) + 1,
            forall|j: int| 0 <= j < old(ops)@.len() ==> final(ops)@[j] == old(ops)@[j],
            spec_drain_ops(
                *old(self),
                true,
                old(ops)@,
                final(ops)@.take(final(ops)@.len() - 1),
            ),
            final(ops)@.last() matches MmapOp::Open { filename, size } && size == old(self).size
                && filename@ == spec_filename(
                old(self).name_prefix@,
                final(self).file_time,
                final(self).revision,
            ),
    {
        self.flush_rest_and_truncate(true, ops);
        let ghost mid_ops = ops@;
        if by_size {
            if self.revision < 65535 {
                self.revision = self.revision + 1;
            }
        } else {
            self.file_time = now_hour;
            self.revision = 0;
        }
        let filename = self.get_filename();
        ops.push(MmapOp::Open { filename, size: self.size });
        self.offset = 0;
        self.flush_offset = 0;
        proof {
            self.base@ = 0;
            self.appended@ = 0;
            assert(ops@.take(ops@.len() - 1) =~= mid_ops);
        }
    }

    /// Appends one record: rotates by time when the hour moved on,
    /// rotates by size when the record (plus its separator) does not
    /// fit the remaining arena, writes the bytes at the running
    /// offset, and triggers an asynchronous flush when forced or when
    /// the unflushed span passed the configured threshold. A record
    /// longer than the whole arena is refused - nothing panics; one of
    /// exactly the arena size still fits at the start of a fresh file.
    pub fn append(&mut self, content: String, force_flush: bool, now_hour: u64, ops: &mut Vec<
        MmapOp,
    >) -> (r: Result<(), DTError>)
        requires
            old(self).wf(),
        ensures
            final(self).wf(),
            final(self).size == old(self).size,
            final(self).path == old(self).path,
            final(self).name_prefix == old(self).name_prefix,
            final(self).flush_size == old(self).flush_size,
            r matches Err(er) ==> er is RuntimeError && byte_len(content@) > old(self).size
                && *final(self) == *old(self) && final(ops)@ == old(ops)@,
            r is Ok ==> byte_len(content@) <= old(self).size && spec_append_post(
                *old(self),
                *final(self),
                content@,
                force_flush,
                now_hour,
                old(ops)@,
                final(ops)@,
            ),
    {
        let rec_len: u64 = content.as_str().len() as u64;
        if rec_len > self.size {
            return Err(
                DTError::RuntimeError(
                    String::from_str("this record is longer than the whole log arena"),
                ),
            );
        }
        let ghost ops_in = ops@;
        if now_hour > self.file_time {
            self.update_mmap(false, now_hour, ops);
        }
        let ghost ops_t = ops@;
        let extra: u64 = if self.offset == 0 {
            0
        } else {
            1
        };
        let mut did_size_rot = false;
        if (self.offset as u128) + (extra as u128) + (rec_len as u128) > self.size as u128 {
            self.update_mmap(true, now_hour, ops);
            did_size_rot = true;
        }
        let ghost ops1 = ops@;
        let extra: u64 = if self.offset == 0 {
            0
        } else {
            1
        };
        let filename = self.get_filename();
        let mut body: Vec<char> = Vec::new();
        if extra == 1 {
            body.push('\n');
        }
        let ghost sep_seq: Seq<char> = body@;
        let cn = content.as_str().unicode_len();
        let mut i: usize = 0;
        while i < cn
            invariant
                0 <= i <= cn,
                cn == content@.len(),
                body@ == sep_seq + content@.take(i as int),
            decreases cn - i,
        {
            body.push(content.as_str().get_char(i));
            proof {
                assert(body@ =~= sep_seq + content@.take(i + 1));
            }
            i = i + 1;
        }
        proof {
            assert(content@.take(cn as int) =~= content@);
            if extra == 0 {
                assert(body@ =~= content@);
            } else {
                assert(body@ =~= seq!['\n'] + content@);
            }
        }
        let body_s = crate::text::chars_to_string(&body);
        let ghost write_index = ops@.len();
        ops.push(MmapOp::WriteAt { filename, offset: self.offset, content: body_s });
        self.offset = self.offset + extra + rec_len;
        proof {
            self.appended@ = self.appended@ + extra + rec_len;
        }
        let should_flush_by_size: bool = match self.flush_size {
            Some(fs) => fs <= self.offset - self.flush_offset,
            None => false,
        };
        let ghost ops_w = ops@;
        if force_flush || should_flush_by_size {
            match self.flush(true) {
                Some(o) => {
                    ops.push(o);
                    proof {
                        assert(ops@[ops_w.len() as int] == o);
                    }
                },
                None => {},
            }
        }
        proof {
            assert forall|j: int| 0 <= j < ops_in.len() implies ops@[j] == ops_in[j] by {
                assert(ops_t[j] == ops_in[j]);
                assert(ops1[j] == ops_t[j]);
                assert(ops_w[j] == ops1[j]);
                assert(ops@[j] == ops_w[j]);
            }
            assert(ops@[write_index as int] matches MmapOp::WriteAt { .. });
            let nf0: int = if old(self).offset > old(self).flush_offset {
                1int
            } else {
                0int
            };
            let tix = ops_in.len() + nf0;
            if now_hour > old(self).file_time && old(self).offset != old(self).size {
                assert(ops_t.take(ops_t.len() - 1)[tix] matches MmapOp::Truncate {
                    filename,
                    len,
                } && len == old(self).offset && filename@ == spec_filename(
                    old(self).name_prefix@,
                    old(self).file_time,
                    old(self).revision,
                ));
                assert(ops_t[tix] == ops_t.take(ops_t.len() - 1)[tix]);
                assert(ops1[tix] == ops_t[tix]);
                assert(ops_w[tix] == ops1[tix]);
                assert(ops@[tix] == ops_w[tix]);
            }
            if did_size_rot && old(self).offset != old(self).size {
                assert(!(now_hour > old(self).file_time));
                assert(ops_t == ops_in);
                assert(ops1.take(ops1.len() - 1)[tix] matches MmapOp::Truncate {
                    filename,
                    len,
                } && len == old(self).offset && filename@ == spec_filename(
                    old(self).name_prefix@,
                    old(self).file_time,
                    old(self).revision,
                ));
                assert(ops1[tix] == ops1.take(ops1.len() - 1)[tix]);
                assert(ops_w[tix] == ops1[tix]);
                assert(ops@[tix] == ops_w[tix]);
            }
        }
        Ok(())
    }

    /// Accepts one validated event: its wire form is appended, with
    /// everything `append` promises of the record and the operations.
    pub fn add(&mut self, event: &Object, now_hour: u64, ops: &mut Vec<MmapOp>) -> (r: Result<
        (),
        DTError,
    >)
        requires
            old(self).wf(),
        ensures
            final(self).wf(),
            r matches Err(er) ==> er is RuntimeError && byte_len(
                spec_ser(SpecValue::Obj(event@)),
            ) > old(self).size && *final(self) == *old(self) && final(ops)@ == old(ops)@,
            r is Ok ==> spec_append_post(
                *old(self),
                *final(self),
                spec_ser(SpecValue::Obj(event@)),
                false,
                now_hour,
                old(ops)@,
                final(ops)@,
            ),
    {
        let json = to_json_object(event);
        self.append(json, false, now_hour, ops)
    }

    /// Closing drains the file synchronously: the unflushed range is
    /// flushed, then the file is truncated to exactly the written
    /// length, as `spec_drain_ops` states.
    pub fn close(&mut self, ops: &mut Vec<MmapOp>)
        requires
            old(self).wf(),
        ensures
            final(self).wf(),
            final(self).offset == old(self).offset,
            final(self).flush_offset == final(self).offset,
            spec_drain_ops(*old(self), false, old(ops)@, final(ops)@),
    {
        self.flush_rest_and_truncate(false, ops);
    }

    /// Called by the shell when a flush-range operation failed: the
    /// flush offset rolls back to the start of the failed range, so
    /// the bytes count as unflushed again.
    pub fn revert_flush(&mut self, to: u64)
        requires
            old(self).wf(),
            to <= old(self).flush_offset,
        ensures
            final(self).wf(),
            final(self).flush_offset == to,
            final(self).offset == old(self).offset,
            final(self).revision == old(self).revision,
            final(self).file_time == old(self).file_time,
            final(self).size == old(self).size,
            final(self).path == old(self).path,
            final(self).name_prefix == old(self).name_prefix,
            final(self).flush_size == old(self).flush_size,
            final(self).appended@ == old(self).appended@,
    {
        self.flush_offset = to;
    }

    /// Parses a mmap-consumer configuration document: `path` is
    /// required; `name_prefix` defaults to `dt`; a missing or zero
    /// `file_size` falls back to the default arena size; a missing or
    /// zero `flush_size` disables the incremental-flush threshold.
    pub fn from_config(config: &Object) -> (r: Result<MmapConfig, DTError>)
        ensures
            (r is Ok) == spec_mmap_config_ok(config@),
            r matches Err(er) ==> er is HostError,
            r matches Ok(cfg) ==> spec_mmap_config_matches(config@, cfg),
    {
        let path = match config.get("path") {
            Some(Value::Str(p)) => p.clone(),
            _ => {
                return Err(
                    DTError::HostError(
                        String::from_str("failed to initialize: missing \"path\""),
                    ),
                );
            },
        };
        let name_prefix: String = match config.get("name_prefix") {
            Some(Value::Str(p)) => p.clone(),
            _ => String::from_str("dt"),
        };
        let file_size: u64 = match config.get("file_size") {
            Some(Value::Int(n)) => {
                if *n > 0 {
                    *n as u64
                } else {
                    DEFAULT_FILE_SIZE
                }
            },
            Some(Value::Uint(n)) => {
                if *n > 0 {
                    *n
                } else {
                    DEFAULT_FILE_SIZE
                }
            },
            _ => DEFAULT_FILE_SIZE,
        };
        let flush_size: Option<u64> = match config.get("flush_size") {
            Some(Value::Int(n)) => {
                if *n > 0 {
                    Some(*n as u64)
                } else {
                    None
                }
            },
            Some(Value::Uint(n)) => {
                if *n > 0 {
                    Some(*n)
                } else {
                    None
                }
            },
            _ => None,
        };
        Ok(MmapConfig { path, name_prefix, file_size, flush_size })
    }
}

/// A mmap configuration is acceptable: `path` is a string; everything
/// else has a default.
pub open spec fn spec_mmap_config_ok(c: crate::value::SpecEntries) -> bool {
    slookup(c, "path"@) matches Some(SpecValue::Str(p))
}

/// How a parsed mmap configuration ties back to the document it came
/// from: the path verbatim, the prefix or its default, the arena size
/// or its default, and a positive flush threshold when one is set.
pub open spec fn spec_mmap_config_matches(c: crate::value::SpecEntries, cfg: MmapConfig) -> bool {
    &&& (slookup(c, "path"@) matches Some(SpecValue::Str(p)) && cfg.path@ == p)
    &&& (match slookup(c, "name_prefix"@) {
        Some(SpecValue::Str(p)) => cfg.name_prefix@ == p,
        _ => cfg.name_prefix@ == "dt"@,
    })
    &&& (match slookup(c, "file_size"@) {
        Some(SpecValue::Int(n)) => {
            if 0 < n <= u64::MAX {
                cfg.file_size == n
            } else {
                cfg.file_size == DEFAULT_FILE_SIZE
            }
        },
        _ => cfg.file_size == DEFAULT_FILE_SIZE,
    })
    &&& (match slookup(c, "flush_size"@) {
        Some(SpecValue::Int(n)) => {
            if 0 < n <= u64::MAX {
                cfg.flush_size == Some(n as u64)
            } else {
                cfg.flush_size is None
            }
        },
        _ => cfg.flush_size is None,
    })
}

/// The separator length before a write at `offset`: none at the start
/// of a file, one byte otherwise.
pub open spec fn sep_len(offset: u64) -> int {
    if offset == 0 {
        0
    } else {
        1
    }
}

} // verus!
