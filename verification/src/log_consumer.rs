use vstd::prelude::*;
use crate::codec::{spec_ser, to_json_object};
use crate::error::DTError;
use crate::text::{
    chars_to_string, parse_dec, push_dec_digits, spec_all_digits, spec_dec_digits, spec_dec_val,
};
use crate::value::{slookup, Object, SpecEntries, SpecValue, Value};
use vstd::utf8::encode_utf8;

verus! {

broadcast use {vstd::std_specs::vec::group_vec_axioms, vstd::seq::group_seq_axioms};

/// Why a buffered write happens: a plain flush, an hour rollover, or a
/// file that grew past its size limit.
pub enum FlushMode {
    Plain,
    ByTime,
    BySize,
}

/// One pending write: append each line, as its own line, to the named
/// file inside the consumer's directory, then sync it.
pub struct FlushOp {
    pub filename: String,
    pub lines: Vec<String>,
}

/// The log file name: `{prefix}-{hour}_{revision}.log`.
pub open spec fn spec_filename(prefix: Seq<char>, file_time: u64, revision: u16) -> Seq<char> {
    prefix + seq!['-'] + spec_dec_digits(file_time as nat) + seq!['_'] + spec_dec_digits(
        revision as nat,
    ) + seq!['.', 'l', 'o', 'g']
}

/// Builds the log file name from its parts.
pub fn make_filename(prefix: &str, file_time: u64, revision: u16) -> (r: String)
    ensures
        r@ == spec_filename(prefix@, file_time, revision),
{
    let mut out: Vec<char> = Vec::new();
    let n = prefix.unicode_len();
    let mut i: usize = 0;
    while i < n
        invariant
            0 <= i <= n,
            n == prefix@.len(),
            out@ == prefix@.take(i as int),
        decreases n - i,
    {
        out.push(prefix.get_char(i));
        proof {
            assert(out@ =~= prefix@.take(i + 1));
        }
        i = i + 1;
    }
    proof {
        assert(prefix@.take(n as int) =~= prefix@);
    }
    out.push('-');
    push_dec_digits(file_time, &mut out);
    out.push('_');
    push_dec_digits(revision as u64, &mut out);
    out.push('.');
    out.push('l');
    out.push('o');
    out.push('g');
    proof {
        assert(out@ =~= spec_filename(prefix@, file_time, revision));
    }
    chars_to_string(&out)
}

/// The revision a directory entry claims for the given prefix and hour
/// bucket, when its name has exactly the shape
/// `{prefix}-{hour}_{revision}.log` with a revision that fits `u16`.
pub open spec fn spec_name_rev(name: Seq<char>, prefix: Seq<char>, file_time: u64) -> Option<
    u16,
> {
    let head = prefix + seq!['-'] + spec_dec_digits(file_time as nat) + seq!['_'];
    let tail = seq!['.', 'l', 'o', 'g'];
    if name.len() >= head.len() + tail.len() + 1 && name.take(head.len() as int) == head
        && name.skip(name.len() - tail.len()) == tail {
        let mid = name.subrange(head.len() as int, name.len() - tail.len());
        if spec_all_digits(mid) && spec_dec_val(mid) <= u16::MAX {
            Some(spec_dec_val(mid) as u16)
        } else {
            None
        }
    } else {
        None
    }
}

/// What a directory scan resumes to: walking the entries in order,
/// keep the highest revision seen so far (later entries win ties) and
/// the byte size recorded beside it.
pub open spec fn spec_scan(
    entries: Seq<(Seq<char>, u64)>,
    prefix: Seq<char>,
    file_time: u64,
) -> (u16, u64)
    decreases entries.len(),
{
    if entries.len() == 0 {
        (0u16, 0u64)
    } else {
        let prev = spec_scan(entries.drop_last(), prefix, file_time);
        match spec_name_rev(entries.last().0, prefix, file_time) {
            Some(rv) => {
                if prev.0 <= rv {
                    (rv, entries.last().1)
                } else {
                    prev
                }
            },
            None => prev,
        }
    }
}

/// The view of a directory listing: each entry's name and byte size.
pub open spec fn spec_dir_view(entries: Seq<(String, u64)>) -> Seq<(Seq<char>, u64)> {
    entries.map_values(|p: (String, u64)| (p.0@, p.1))
}

/// Whether `name` resumes revision `rv` for this prefix and hour.
fn name_rev(name: &str, prefix: &str, file_time: u64) -> (r: Option<u16>)
    ensures
        r == spec_name_rev(name@, prefix@, file_time),
{
    let mut head: Vec<char> = Vec::new();
    let pn = prefix.unicode_len();
    let mut i: usize = 0;
    while i < pn
        invariant
            0 <= i <= pn,
            pn == prefix@.len(),
            head@ == prefix@.take(i as int),
        decreases pn - i,
    {
        head.push(prefix.get_char(i));
        proof {
            assert(head@ =~= prefix@.take(i + 1));
        }
        i = i + 1;
    }
    proof {
        assert(prefix@.take(pn as int) =~= prefix@);
    }
    head.push('-');
    push_dec_digits(file_time, &mut head);
    head.push('_');
    proof {
        assert(head@ =~= prefix@ + seq!['-'] + spec_dec_digits(file_time as nat) + seq!['_']);
    }
    let hn = head.len();
    let nn = name.unicode_len();
    if nn < hn || nn - hn < 5 {
        return None;
    }
    let mut j: usize = 0;
    while j < hn
        invariant
            0 <= j <= hn,
            hn == head@.len(),
            nn == name@.len(),
            nn >= hn + 5,
            head@ == prefix@ + seq!['-'] + spec_dec_digits(file_time as nat) + seq!['_'],
            forall|t: int| 0 <= t < j ==> name@[t] == head@[t],
        decreases hn - j,
    {
        if name.get_char(j) != head[j] {
            proof {
                assert(name@.take(hn as int) != head@) by {
                    assert(name@.take(hn as int)[j as int] == name@[j as int]);
                }
            }
            return None;
        }
        j = j + 1;
    }
    proof {
        assert(name@.take(hn as int) =~= head@);
    }
    let d1 = name.get_char(nn - 4);
    let d2 = name.get_char(nn - 3);
    let d3 = name.get_char(nn - 2);
    let d4 = name.get_char(nn - 1);
    if !(d1 == '.' && d2 == 'l' && d3 == 'o' && d4 == 'g') {
        proof {
            assert(name@.skip(nn - 4) != seq!['.', 'l', 'o', 'g']) by {
                assert(name@.skip(nn - 4)[0] == name@[nn - 4]);
                assert(name@.skip(nn - 4)[1] == name@[nn - 3]);
                assert(name@.skip(nn - 4)[2] == name@[nn - 2]);
                assert(name@.skip(nn - 4)[3] == name@[nn - 1]);
            }
        }
        return None;
    }
    proof {
        assert(name@.skip(nn - 4) =~= seq!['.', 'l', 'o', 'g']);
    }
    let mid = name.substring_char(hn, nn - 4);
    proof {
        assert(mid@ =~= name@.subrange(hn as int, nn - 4));
    }
    match parse_dec(mid) {
        Some(v) => {
            if v <= 65535 {
                Some(v as u16)
            } else {
                None
            }
        },
        None => None,
    }
}

/// Scans a directory listing for the highest revision of this prefix
/// and hour bucket, and the recorded size of that file.
pub fn scan_revisions(entries: &Vec<(String, u64)>, prefix: &str, file_time: u64) -> (r: (
    u16,
    u64,
))
    ensures
        r == spec_scan(spec_dir_view(entries@), prefix@, file_time),
{
    let n = entries.len();
    let mut revision: u16 = 0;
    let mut size: u64 = 0;
    let mut i: usize = 0;
    while i < n
        invariant
            0 <= i <= n,
            n == entries@.len(),
            (revision, size) == spec_scan(
                spec_dir_view(entries@).take(i as int),
                prefix@,
                file_time,
            ),
        decreases n - i,
    {
        let ghost dv = spec_dir_view(entries@);
        proof {
            assert(dv.take(i + 1).drop_last() =~= dv.take(i as int));
            assert(dv.take(i + 1).last() == dv[i as int]);
            assert(dv[i as int] == (entries@[i as int].0@, entries@[i as int].1));
        }
        match name_rev(entries[i].0.as_str(), prefix, file_time) {
            Some(rv) => {
                if revision <= rv {
                    revision = rv;
                    size = entries[i].1;
                }
            },
            None => {},
        }
        i = i + 1;
    }
    proof {
        assert(spec_dir_view(entries@).take(n as int) =~= spec_dir_view(entries@));
    }
    (revision, size)
}

/// The byte length of one serialized record.
pub open spec fn spec_rec_bytes(e: SpecEntries) -> int {
    encode_utf8(spec_ser(SpecValue::Obj(e))).len() as int
}

/// The configuration of a buffered rotating file writer.
pub struct LogConfig {
    pub path: String,
    pub max_batch_len: u32,
    pub name_prefix: Option<String>,
    pub max_file_size_bytes: Option<u64>,
}

/// The buffered rotating file writer. It owns no file handle itself:
/// every write it decides on is handed back as a `FlushOp` that the
/// shell applies to the file system.
pub struct LogConsumer {
    pub path: String,
    pub max_batch_len: u32,
    pub name_prefix: Option<String>,
    pub max_file_size_bytes: Option<u64>,
    pub crt_size_bytes: u64,
    pub batch: Vec<String>,
    pub file_time: u64,
    pub revision: u16,
    pub flushed: Ghost<int>,
}

/// Addition clamped to the largest machine size, as the running byte
/// estimate is kept.
pub open spec fn spec_sat_add(a: int, b: int) -> int {
    if a + b > u64::MAX {
        u64::MAX as int
    } else {
        a + b
    }
}

/// Everything one `add` call does, whatever rotations it took: the
/// hour bucket is made current first (draining the batch to the
/// outgoing file), the file rotates by size when the running estimate
/// plus the record would pass the limit (draining the batch to the
/// outgoing revision), the record's wire form joins the batch, and a
/// batch that reached the threshold is drained whole to the current
/// file. Every drained line is pinned: nothing is lost, duplicated or
/// reordered across flush and rotation boundaries.
pub open spec fn spec_log_add_post(
    c0: LogConsumer,
    c2: LogConsumer,
    ev: crate::value::SpecEntries,
    now_hour: u64,
    ops: Seq<FlushOp>,
) -> bool {
    let json = spec_ser(SpecValue::Obj(ev));
    let jl = crate::codec::byte_len(json);
    let tr = now_hour > c0.file_time;
    let ft1 = if tr {
        now_hour
    } else {
        c0.file_time
    };
    let rev1: u16 = if tr {
        0u16
    } else {
        c0.revision
    };
    let crt1: int = if tr {
        0int
    } else {
        c0.crt_size_bytes as int
    };
    let batch1: Seq<String> = if tr {
        Seq::empty()
    } else {
        c0.batch@
    };
    let n_t: int = if tr && c0.batch@.len() > 0 {
        1int
    } else {
        0int
    };
    let sr = c0.max_file_size_bytes matches Some(m) && crt1 + jl > m;
    let n_s: int = if sr && batch1.len() > 0 {
        1int
    } else {
        0int
    };
    let rev2: u16 = if sr {
        if rev1 < u16::MAX {
            (rev1 + 1) as u16
        } else {
            u16::MAX
        }
    } else {
        rev1
    };
    let batch2: Seq<String> = if sr {
        Seq::empty()
    } else {
        batch1
    };
    let crt2: int = if sr {
        0int
    } else {
        crt1
    };
    let full = batch2.len() + 1 >= c0.max_batch_len;
    let n_p: int = if full {
        1int
    } else {
        0int
    };
    &&& c2.file_time == ft1
    &&& c2.revision == rev2
    &&& c2.batch@.len() == (if full {
        0int
    } else {
        batch2.len() + 1int
    })
    &&& (!full ==> (forall|j: int| 0 <= j < batch2.len() ==> c2.batch@[j] == batch2[j])
        && c2.batch@[batch2.len() as int]@ == json)
    &&& c2.crt_size_bytes == (if full {
        spec_sat_add(spec_sat_add(crt2, jl), batch2.len() + 1int)
    } else {
        spec_sat_add(crt2, jl)
    })
    &&& ops.len() == n_t + n_s + n_p
    &&& (n_t == 1 ==> ops[0].lines@ == c0.batch@ && ops[0].filename@ == spec_filename(
        c0.spec_prefix(),
        c0.file_time,
        c0.revision,
    ))
    &&& (n_s == 1 ==> ops[0].lines@ == batch1 && ops[0].filename@ == spec_filename(
        c0.spec_prefix(),
        ft1,
        rev1,
    ))
    &&& (n_p == 1 ==> {
        let p = ops[n_t + n_s];
        &&& p.filename@ == spec_filename(c0.spec_prefix(), ft1, rev2)
        &&& p.lines@.len() == batch2.len() + 1
        &&& (forall|j: int| 0 <= j < batch2.len() ==> p.lines@[j] == batch2[j])
        &&& p.lines@[batch2.len() as int]@ == json
    })
}

/// How many records the consumer has accepted in total: already
/// flushed ones plus the in-memory batch. `add` grows this by exactly
/// one and no flush changes it - no record is lost or duplicated
/// across flush and rotation boundaries.
pub open spec fn spec_records_accounted(c: LogConsumer) -> int {
    c.flushed@ + c.batch@.len()
}

impl LogConsumer {
    /// The effective file-name prefix: the configured one, or `dt`.
    pub open spec fn spec_prefix(&self) -> Seq<char> {
        match self.name_prefix {
            Some(p) => {
                if p@.len() > 0 {
                    p@
                } else {
                    seq!['d', 't']
                }
            },
            None => seq!['d', 't'],
        }
    }

    /// Builds a consumer over the directory listing the shell read:
    /// it resumes the highest revision of the current hour bucket and
    /// that file's last known size.
    pub fn new(
        path: String,
        max_batch_len: u32,
        name_prefix: Option<String>,
        max_file_size_bytes: Option<u64>,
        file_time: u64,
        dir_entries: &Vec<(String, u64)>,
    ) -> (r: LogConsumer)
        ensures
            r.path == path,
            r.max_batch_len == max_batch_len,
            r.name_prefix == name_prefix,
            r.max_file_size_bytes == max_file_size_bytes,
            r.file_time == file_time,
            r.batch@.len() == 0,
            r.flushed@ == 0,
            (r.revision, r.crt_size_bytes) == spec_scan(
                spec_dir_view(dir_entries@),
                r.spec_prefix(),
                file_time,
            ),
    {
        let scanned = match &name_prefix {
            Some(p) => {
                if p.as_str().unicode_len() > 0 {
                    scan_revisions(dir_entries, p.as_str(), file_time)
                } else {
                    scan_revisions(dir_entries, "dt", file_time)
                }
            },
            None => scan_revisions(dir_entries, "dt", file_time),
        };
        proof {
            reveal_strlit("dt");
            assert("dt"@ =~= seq!['d', 't']);
        }
        LogConsumer {
            path,
            max_batch_len,
            name_prefix,
            max_file_size_bytes,
            crt_size_bytes: scanned.1,
            batch: Vec::new(),
            file_time,
            revision: scanned.0,
            flushed: Ghost(0int),
        }
    }


    /// Resumes from a directory listing as the shell read it: the
    /// highest revision of this prefix and hour, and that file's last
    /// known size.
    pub fn get_init_revision(
        entries: &Vec<(String, u64)>,
        name_prefix: &Option<String>,
        file_time: u64,
    ) -> (r: (u16, u64))
        ensures
            r == spec_scan(
                spec_dir_view(entries@),
                match name_prefix {
                    Some(p) => {
                        if p@.len() > 0 {
                            p@
                        } else {
                            seq!['d', 't']
                        }
                    },
                    None => seq!['d', 't'],
                },
                file_time,
            ),
    {
        proof {
            reveal_strlit("dt");
            assert("dt"@ =~= seq!['d', 't']);
        }
        match name_prefix {
            Some(p) => {
                if p.as_str().unicode_len() > 0 {
                    scan_revisions(entries, p.as_str(), file_time)
                } else {
                    scan_revisions(entries, "dt", file_time)
                }
            },
            None => scan_revisions(entries, "dt", file_time),
        }
    }

    /// The wall clock has moved past this file's hour bucket.
    pub fn is_time_changed(&self, now_hour: u64) -> (r: bool)
        ensures
            r == (now_hour > self.file_time),
    {
        now_hour > self.file_time
    }

    /// The batch has reached the flush threshold.
    pub fn is_need_flush(&self) -> (r: bool)
        ensures
            r == (self.batch@.len() >= self.max_batch_len),
    {
        self.batch.len() as u64 >= self.max_batch_len as u64
    }

    /// The name of the file the next flush writes to.
    pub fn get_filename(&self) -> (r: String)
        ensures
            r@ == spec_filename(self.spec_prefix(), self.file_time, self.revision),
    {
        proof {
            reveal_strlit("dt");
            assert("dt"@ =~= seq!['d', 't']);
        }
        match &self.name_prefix {
            Some(p) => {
                if p.as_str().unicode_len() > 0 {
                    make_filename(p.as_str(), self.file_time, self.revision)
                } else {
                    make_filename("dt", self.file_time, self.revision)
                }
            },
            None => make_filename("dt", self.file_time, self.revision),
        }
    }

    /// Drains the batch into one write to the current file (when the
    /// batch is non-empty), counting one separator byte per drained
    /// line into the running size estimate, then advances the naming
    /// state as the mode demands: an hour rollover resets the
    /// revision, a size rollover bumps it, a plain flush changes
    /// nothing further.
    pub fn write_to_file(&mut self, mode: FlushMode, now_hour: u64) -> (op: Option<FlushOp>)
        ensures
            match op {
                Some(f) => old(self).batch@.len() > 0 && f.lines@ == old(self).batch@
                    && f.filename@ == spec_filename(
                    old(self).spec_prefix(),
                    old(self).file_time,
                    old(self).revision,
                ),
                None => old(self).batch@.len() == 0,
            },
            final(self).batch@.len() == 0,
            final(self).flushed@ == old(self).flushed@ + old(self).batch@.len(),
            spec_records_accounted(*final(self)) == spec_records_accounted(*old(self)),
            final(self).path == old(self).path,
            final(self).max_batch_len == old(self).max_batch_len,
            final(self).name_prefix == old(self).name_prefix,
            final(self).max_file_size_bytes == old(self).max_file_size_bytes,
            match mode {
                FlushMode::ByTime => final(self).file_time == now_hour && final(self).revision
                    == 0 && final(self).crt_size_bytes == 0,
                FlushMode::BySize => final(self).file_time == old(self).file_time
                    && final(self).revision == (if old(self).revision < u16::MAX {
                    (old(self).revision + 1) as u16
                } else {
                    u16::MAX
                }) && final(self).crt_size_bytes == 0,
                FlushMode::Plain => final(self).file_time == old(self).file_time
                    && final(self).revision == old(self).revision && final(self).crt_size_bytes
                    == (if old(self).batch@.len() == 0 {
                    old(self).crt_size_bytes as int
                } else {
                    spec_sat_add(old(self).crt_size_bytes as int, old(self).batch@.len() as int)
                }),
            },
    {
        let op: Option<FlushOp> = if self.batch.len() > 0 {
            let filename = self.get_filename();
            let mut lines: Vec<String> = Vec::new();
            core::mem::swap(&mut self.batch, &mut lines);
            proof {
                self.flushed@ = self.flushed@ + lines@.len();
            }
            let sep_bytes = lines.len() as u64;
            if self.crt_size_bytes > u64::MAX - sep_bytes {
                self.crt_size_bytes = u64::MAX;
            } else {
                self.crt_size_bytes = self.crt_size_bytes + sep_bytes;
            }
            Some(FlushOp { filename, lines })
        } else {
            None
        };
        match mode {
            FlushMode::ByTime => {
                self.file_time = now_hour;
                self.revision = 0;
                self.crt_size_bytes = 0;
            },
            FlushMode::BySize => {
                if self.revision < 65535 {
                    self.revision = self.revision + 1;
                }
                self.crt_size_bytes = 0;
            },
            FlushMode::Plain => {},
        }
        op
    }

    /// Accepts one validated event: serializes it, rotates by time or
    /// by size first when needed, buffers the record, and flushes when
    /// the batch is full. Exactly one record is accounted per call,
    /// and every drained line of every returned write is pinned by
    /// `spec_log_add_post`.
    pub fn add(&mut self, event: &Object, now_hour: u64) -> (ops: Vec<FlushOp>)
        ensures
            spec_records_accounted(*final(self)) == spec_records_accounted(*old(self)) + 1,
            final(self).path == old(self).path,
            final(self).max_batch_len == old(self).max_batch_len,
            final(self).name_prefix == old(self).name_prefix,
            final(self).max_file_size_bytes == old(self).max_file_size_bytes,
            spec_log_add_post(*old(self), *final(self), event@, now_hour, ops@),
    {
        let mut ops: Vec<FlushOp> = Vec::new();
        if self.is_time_changed(now_hour) {
            match self.write_to_file(FlushMode::ByTime, now_hour) {
                Some(f) => {
                    ops.push(f);
                },
                None => {},
            }
        }
        let ghost ops_t = ops@;
        let ghost st1 = *self;
        let json = to_json_object(event);
        let json_size = json.as_str().len() as u64;
        match self.max_file_size_bytes {
            Some(m) => {
                if self.crt_size_bytes as u64 > m || json_size > m - self.crt_size_bytes {
                    match self.write_to_file(FlushMode::BySize, now_hour) {
                        Some(f) => {
                            ops.push(f);
                        },
                        None => {},
                    }
                }
            },
            None => {},
        }
        let ghost ops_s = ops@;
        let ghost st2 = *self;
        let ghost json_g = json;
        let ghost batch_before = self.batch@;
        self.batch.push(json);
        if self.crt_size_bytes > u64::MAX - json_size {
            self.crt_size_bytes = u64::MAX;
        } else {
            self.crt_size_bytes = self.crt_size_bytes + json_size;
        }
        let mut flushed_now = false;
        if self.is_need_flush() {
            match self.write_to_file(FlushMode::Plain, now_hour) {
                Some(f) => {
                    ops.push(f);
                },
                None => {},
            }
            flushed_now = true;
        }
        proof {
            assert(batch_before == st2.batch@);
            if flushed_now {
                assert(self.batch@ =~= Seq::<String>::empty());
            } else {
                assert(self.batch@ == batch_before.push(json_g));
            }
            assert forall|j: int| 0 <= j < ops_t.len() implies ops@[j] == ops_t[j] by {
                assert(ops_s[j] == ops_t[j]);
            }
            if flushed_now {
                assert(ops@[ops_s.len() as int].lines@ == batch_before.push(json_g));
            }
        }
        ops
    }

    /// Called by the shell after it applied a write: the file's real
    /// byte length replaces the running estimate, so size rotation
    /// tracks what is actually on disk.
    pub fn sync_file_size(&mut self, len: u64)
        ensures
            final(self).crt_size_bytes == len,
            final(self).batch == old(self).batch,
            final(self).flushed == old(self).flushed,
            final(self).path == old(self).path,
            final(self).max_batch_len == old(self).max_batch_len,
            final(self).name_prefix == old(self).name_prefix,
            final(self).max_file_size_bytes == old(self).max_file_size_bytes,
            final(self).file_time == old(self).file_time,
            final(self).revision == old(self).revision,
            spec_records_accounted(*final(self)) == spec_records_accounted(*old(self)),
    {
        self.crt_size_bytes = len;
    }

    /// Flushes whatever is buffered, without rotating.
    pub fn flush(&mut self) -> (op: Option<FlushOp>)
        ensures
            match op {
                Some(f) => old(self).batch@.len() > 0 && f.lines@ == old(self).batch@
                    && f.filename@ == spec_filename(
                    old(self).spec_prefix(),
                    old(self).file_time,
                    old(self).revision,
                ),
                None => old(self).batch@.len() == 0,
            },
            final(self).batch@.len() == 0,
            spec_records_accounted(*final(self)) == spec_records_accounted(*old(self)),
            final(self).file_time == old(self).file_time,
            final(self).revision == old(self).revision,
    {
        self.write_to_file(FlushMode::Plain, self.file_time)
    }

    /// Closing force-writes the batch until it is empty.
    pub fn close(&mut self) -> (op: Option<FlushOp>)
        ensures
            match op {
                Some(f) => old(self).batch@.len() > 0 && f.lines@ == old(self).batch@
                    && f.filename@ == spec_filename(
                    old(self).spec_prefix(),
                    old(self).file_time,
                    old(self).revision,
                ),
                None => old(self).batch@.len() == 0,
            },
            final(self).batch@.len() == 0,
            spec_records_accounted(*final(self)) == spec_records_accounted(*old(self)),
            final(self).file_time == old(self).file_time,
            final(self).revision == old(self).revision,
    {
        self.flush()
    }

    /// Parses a log-consumer configuration document: `path` and a
    /// positive `max_batch_len` are required; `name_prefix` is
    /// optional; a missing or zero `max_file_size_bytes` means
    /// unlimited. Fails with a `HostError` exactly when a required key
    /// is missing or ill-typed.
    pub fn from_config(config: &Object) -> (r: Result<LogConfig, DTError>)
        ensures
            (r is Ok) == spec_log_config_ok(config@),
            r matches Err(er) ==> er is HostError,
            r matches Ok(cfg) ==> spec_log_config_matches(config@, cfg),
    {
        let path = match config.get("path") {
            Some(Value::Str(p)) => p.clone(),
            _ => {
                return Err(
                    DTError::HostError(
                        String::from_str("failed to initialize: missing \"path\""),
                    ),
                );
            },
        };
        let max_batch_len: u32 = match config.get("max_batch_len") {
            Some(Value::Int(n)) => {
                let n = *n;
                if n <= 0 {
                    return Err(
                        DTError::HostError(
                            String::from_str(
                                "failed to initialize: \"max_batch_len\" must be positive",
                            ),
                        ),
                    );
                }
                if n > 0xFFFF_FFFFi64 {
                    return Err(
                        DTError::HostError(
                            String::from_str(
                                "failed to initialize: \"max_batch_len\" is too large",
                            ),
                        ),
                    );
                }
                n as u32
            },
            Some(Value::Uint(n)) => {
                let n = *n;
                if n == 0 {
                    return Err(
                        DTError::HostError(
                            String::from_str(
                                "failed to initialize: \"max_batch_len\" must be positive",
                            ),
                        ),
                    );
                }
                if n > 0xFFFF_FFFFu64 {
                    return Err(
                        DTError::HostError(
                            String::from_str(
                                "failed to initialize: \"max_batch_len\" is too large",
                            ),
                        ),
                    );
                }
                n as u32
            },
            _ => {
                return Err(
                    DTError::HostError(
                        String::from_str("failed to initialize: missing \"max_batch_len\""),
                    ),
                );
            },
        };
        let name_prefix: Option<String> = match config.get("name_prefix") {
            Some(Value::Str(p)) => Some(p.clone()),
            _ => None,
        };
        let max_file_size_bytes: Option<u64> = match config.get("max_file_size_bytes") {
            Some(Value::Int(m)) => {
                let m = *m;
                if m > 0 {
                    Some(m as u64)
                } else {
                    None
                }
            },
            Some(Value::Uint(m)) => {
                let m = *m;
                if m > 0 {
                    Some(m)
                } else {
                    None
                }
            },
            _ => None,
        };
        Ok(LogConfig { path, max_batch_len, name_prefix, max_file_size_bytes })
    }
}

/// A log configuration is acceptable: `path` is a string and
/// `max_batch_len` is an integer within `1..=u32::MAX`.
pub open spec fn spec_log_config_ok(c: SpecEntries) -> bool {
    &&& (slookup(c, "path"@) matches Some(SpecValue::Str(p)))
    &&& (slookup(c, "max_batch_len"@) matches Some(SpecValue::Int(n)) && 0 < n <= u32::MAX)
}

/// How a parsed log configuration ties back to the document it came
/// from: the required keys verbatim, the optional prefix when it is a
/// string, and a positive size limit when one is set (zero or absent
/// means unlimited).
pub open spec fn spec_log_config_matches(c: SpecEntries, cfg: LogConfig) -> bool {
    &&& (slookup(c, "path"@) matches Some(SpecValue::Str(p)) && cfg.path@ == p)
    &&& (slookup(c, "max_batch_len"@) matches Some(SpecValue::Int(n)) && cfg.max_batch_len == n)
    &&& (match slookup(c, "name_prefix"@) {
        Some(SpecValue::Str(p)) => cfg.name_prefix matches Some(np) && np@ == p,
        _ => cfg.name_prefix is None,
    })
    &&& (match slookup(c, "max_file_size_bytes"@) {
        Some(SpecValue::Int(m)) => {
            if 0 < m <= u64::MAX {
                cfg.max_file_size_bytes == Some(m as u64)
            } else {
                cfg.max_file_size_bytes is None
            }
        },
        _ => cfg.max_file_size_bytes is None,
    })
}

/// How the batch and flush counters evolve over `n` accepted records
/// with flush threshold `k`, in the plain regime (a fixed hour bucket
/// and no size limit): each record joins the batch, and a batch that
/// reaches `k` is flushed whole. This is exactly what `add` does then:
/// its batch grows by one or is drained, and its record accounting
/// moves by one per call.
pub open spec fn spec_plain_flushes(n: nat, k: nat) -> (nat, nat)
    decreases n,
{
    if n == 0 {
        (0nat, 0nat)
    } else {
        let prev = spec_plain_flushes((n - 1) as nat, k);
        if prev.0 + 1 >= k {
            (0nat, (prev.1 + 1) as nat)
        } else {
            ((prev.0 + 1) as nat, prev.1)
        }
    }
}

/// Law: accepting `n` records with flush threshold `k` loses none of
/// them - the flushed batches and the leftover batch account for all
/// `n` - and performs no more flushes than `n` divided by `k`, rounded
/// up.
pub proof fn lemma_flush_count_bound(n: nat, k: nat)
    requires
        k >= 1,
    ensures
        spec_plain_flushes(n, k).1 * k + spec_plain_flushes(n, k).0 == n,
        spec_plain_flushes(n, k).0 < k,
        spec_plain_flushes(n, k).1 <= (n + k - 1) / (k as int),
    decreases n,
{
    if n == 0 {
        assert(0nat * k == 0) by (nonlinear_arith);
        assert((0 + k - 1) / (k as int) >= 0) by (nonlinear_arith)
            requires
                k >= 1,
        ;
    } else {
        lemma_flush_count_bound((n - 1) as nat, k);
        let prev = spec_plain_flushes((n - 1) as nat, k);
        let cur = spec_plain_flushes(n, k);
        if prev.0 + 1 >= k {
            assert(prev.0 + 1 == k);
            assert(cur.1 * k == prev.1 * k + k) by (nonlinear_arith)
                requires
                    cur.1 == prev.1 + 1,
            ;
        }
        assert(cur.1 * k + cur.0 == n);
        assert(cur.1 <= (n + k - 1) / (k as int)) by (nonlinear_arith)
            requires
                cur.1 * k + cur.0 == n,
                0 <= cur.0,
                k >= 1,
                cur.1 >= 0,
        ;
    }
}

} // verus!
