//! Reading a configuration document onto the tree, and writing the tree
//! back out: every known key of every section, over the line grammar of
//! [`crate::doc`]. Unknown sections and keys are ignored; a known key with a
//! malformed value is rejected before any of it is applied.

use vstd::prelude::*;

use crate::ascii::NL;
use crate::bytestr::{bytes_eq, bytes_of};
use crate::cf::{CfConfig, CfConfigView};
use crate::db::{DbConfig, DbConfigView, RaftDbConfig, RaftDbConfigView};
use crate::doc::{
    spec_find_byte, spec_lex_line, spec_render_line, find_byte_from, lex_line, lemma_deep_view_push,
    render_header, render_pair, Line, LineV, Value, ValueV,
};
use crate::engine::{
    spec_compaction_pri_wire, spec_compaction_pri_from_wire, spec_compression_name,
    spec_compression_from_name, spec_recovery_mode_wire, spec_recovery_mode_from_wire,
    compaction_pri_wire, compaction_pri_from_wire, compression_name, compression_from_name,
    recovery_mode_wire, recovery_mode_from_wire, CompactionPriority, CompressionType, RecoveryMode,
};
use crate::errors::ParseError;
use crate::satellites::{
    MetricConfig, MetricConfigView, PdConfig, PdConfigView, RaftstoreConfig, RaftstoreConfigView,
    ServerConfig, ServerConfigView, StorageConfig, StorageConfigView,
};
use crate::tree::{
    spec_log_level_name, spec_log_level_from_name, log_level_name, log_level_from_name, LogLevel,
    TiKvConfig, TiKvConfigView,
};
use crate::units::{
    spec_fmt_size, spec_parse_size, spec_fmt_dur, spec_parse_dur, fmt_size, parse_size, fmt_dur,
    parse_dur, ReadableSize, ReadableDuration,
};

verus! {

/// The size a value denotes: a suffixed string, or a bare byte count.
pub open spec fn spec_size_value(v: ValueV) -> Option<ReadableSize> {
    match v {
        ValueV::Str(s) => match spec_parse_size(s) {
            None => None,
            Some(n) => Some(ReadableSize(n)),
        },
        ValueV::Int(n) => if n >= 0 {
            Some(ReadableSize(n as u64))
        } else {
            None
        },
        _ => None,
    }
}

/// The duration a value denotes.
pub open spec fn spec_dur_value(v: ValueV) -> Option<ReadableDuration> {
    match v {
        ValueV::Str(s) => match spec_parse_dur(s) {
            None => None,
            Some(n) => Some(ReadableDuration(n)),
        },
        _ => None,
    }
}

pub open spec fn spec_bool_value(v: ValueV) -> Option<bool> {
    match v {
        ValueV::Bool(b) => Some(b),
        _ => None,
    }
}

pub open spec fn spec_i32_value(v: ValueV) -> Option<i32> {
    match v {
        ValueV::Int(n) => if i32::MIN <= n <= i32::MAX {
            Some(n as i32)
        } else {
            None
        },
        _ => None,
    }
}

pub open spec fn spec_u32_value(v: ValueV) -> Option<u32> {
    match v {
        ValueV::Int(n) => if 0 <= n <= u32::MAX {
            Some(n as u32)
        } else {
            None
        },
        _ => None,
    }
}

pub open spec fn spec_u64_value(v: ValueV) -> Option<u64> {
    match v {
        ValueV::Int(n) => if n >= 0 {
            Some(n as u64)
        } else {
            None
        },
        _ => None,
    }
}

pub open spec fn spec_bytes_value(v: ValueV) -> Option<Seq<u8>> {
    match v {
        ValueV::Str(s) => Some(s),
        _ => None,
    }
}

pub open spec fn spec_recovery_value(v: ValueV) -> Option<RecoveryMode> {
    match v {
        ValueV::Int(n) => spec_recovery_mode_from_wire(n),
        _ => None,
    }
}

pub open spec fn spec_pri_value(v: ValueV) -> Option<CompactionPriority> {
    match v {
        ValueV::Int(n) => spec_compaction_pri_from_wire(n),
        _ => None,
    }
}

pub open spec fn spec_level_value(v: ValueV) -> Option<LogLevel> {
    match v {
        ValueV::Str(s) => spec_log_level_from_name(s),
        _ => None,
    }
}

/// The codecs the given names denote, in order; `None` on an unknown name.
pub open spec fn spec_compressions_of(items: Seq<Seq<u8>>) -> Option<Seq<CompressionType>>
    decreases items.len(),
{
    if items.len() == 0 {
        Some(Seq::empty())
    } else {
        match spec_compression_from_name(items[0]) {
            None => None,
            Some(c) => match spec_compressions_of(items.skip(1)) {
                None => None,
                Some(rest) => Some(seq![c] + rest),
            },
        }
    }
}

/// The per-level compression sequence a value denotes: exactly seven names.
pub open spec fn spec_compression_value(v: ValueV) -> Option<Seq<CompressionType>> {
    match v {
        ValueV::List(items) => if items.len() == 7 {
            spec_compressions_of(items)
        } else {
            None
        },
        _ => None,
    }
}

/// The names of the given codecs, in order.
pub open spec fn spec_names_of(cs: Seq<CompressionType>) -> Seq<Seq<u8>> {
    Seq::new(cs.len(), |i: int| spec_compression_name(cs[i]))
}

pub open spec fn spec_endpoints_value(v: ValueV) -> Option<Seq<Seq<u8>>> {
    match v {
        ValueV::List(items) => Some(items),
        _ => None,
    }
}

pub fn size_value(v: Value) -> (r: Option<ReadableSize>)
    ensures
        r == spec_size_value(v@),
{
    match v {
        Value::Str(s) => match parse_size(s.as_slice()) {
            None => None,
            Some(n) => Some(ReadableSize(n)),
        },
        Value::Int(n) => if n >= 0 {
            Some(ReadableSize(n as u64))
        } else {
            None
        },
        _ => None,
    }
}

pub fn dur_value(v: Value) -> (r: Option<ReadableDuration>)
    ensures
        r == spec_dur_value(v@),
{
    match v {
        Value::Str(s) => match parse_dur(s.as_slice()) {
            None => None,
            Some(n) => Some(ReadableDuration(n)),
        },
        _ => None,
    }
}

pub fn bool_value(v: Value) -> (r: Option<bool>)
    ensures
        r == spec_bool_value(v@),
{
    match v {
        Value::Bool(b) => Some(b),
        _ => None,
    }
}

pub fn i32_value(v: Value) -> (r: Option<i32>)
    ensures
        r == spec_i32_value(v@),
{
    match v {
        Value::Int(n) => if i32::MIN as i64 <= n && n <= i32::MAX as i64 {
            Some(n as i32)
        } else {
            None
        },
        _ => None,
    }
}

pub fn u32_value(v: Value) -> (r: Option<u32>)
    ensures
        r == spec_u32_value(v@),
{
    match v {
        Value::Int(n) => if 0 <= n && n <= u32::MAX as i64 {
            Some(n as u32)
        } else {
            None
        },
        _ => None,
    }
}

pub fn u64_value(v: Value) -> (r: Option<u64>)
    ensures
        r == spec_u64_value(v@),
{
    match v {
        Value::Int(n) => if n >= 0 {
            Some(n as u64)
        } else {
            None
        },
        _ => None,
    }
}

pub fn bytes_value(v: Value) -> (r: Option<Vec<u8>>)
    ensures
        match r {
            None => spec_bytes_value(v@) is None,
            Some(s) => spec_bytes_value(v@) == Some(s@),
        },
{
    match v {
        Value::Str(s) => Some(s),
        _ => None,
    }
}

pub fn recovery_value(v: Value) -> (r: Option<RecoveryMode>)
    ensures
        r == spec_recovery_value(v@),
{
    match v {
        Value::Int(n) => recovery_mode_from_wire(n),
        _ => None,
    }
}

pub fn pri_value(v: Value) -> (r: Option<CompactionPriority>)
    ensures
        r == spec_pri_value(v@),
{
    match v {
        Value::Int(n) => compaction_pri_from_wire(n),
        _ => None,
    }
}

pub fn level_value(v: Value) -> (r: Option<LogLevel>)
    ensures
        r == spec_level_value(v@),
{
    match v {
        Value::Str(s) => log_level_from_name(s.as_slice()),
        _ => None,
    }
}

pub fn compression_value(v: Value) -> (r: Option<Vec<CompressionType>>)
    ensures
        match r {
            None => spec_compression_value(v@) is None,
            Some(cs) => spec_compression_value(v@) == Some(cs@),
        },
{
    let items = match v {
        Value::List(items) => items,
        Value::Str(s) => {
            return None;
        },
        Value::Int(n) => {
            return None;
        },
        Value::Bool(b) => {
            return None;
        },
    };
    if items.len() != 7 {
        return None;
    }
    let ghost iv = items.deep_view();
    let mut cs: Vec<CompressionType> = Vec::new();
    let mut i: usize = 0;
    proof {
        assert(iv.skip(0) =~= iv);
        assert(cs@ =~= Seq::<CompressionType>::empty());
    }
    while i < items.len()
        invariant
            0 <= i <= items@.len(),
            iv == items.deep_view(),
            iv.len() == items@.len(),
            v@ == ValueV::List(iv),
            iv.len() == 7,
            spec_compressions_of(iv) == match spec_compressions_of(iv.skip(i as int)) {
                None => None::<Seq<CompressionType>>,
                Some(rest) => Some(cs@ + rest),
            },
        decreases items@.len() - i,
    {
        proof {
            assert(iv.skip(i as int)[0] == iv[i as int]);
            assert(iv[i as int] == items@[i as int]@);
            assert(iv.skip(i as int).skip(1) =~= iv.skip(i + 1));
        }
        let c = match compression_from_name(items[i].as_slice()) {
            None => {
                return None;
            },
            Some(c) => c,
        };
        cs.push(c);
        proof {
            assert forall|rest: Seq<CompressionType>| true implies cs@.drop_last() + (seq![c]
                + rest) =~= cs@ + rest by {}
        }
        i = i + 1;
    }
    proof {
        assert(iv.skip(i as int).len() == 0);
        assert(cs@ + Seq::<CompressionType>::empty() =~= cs@);
    }
    Some(cs)
}

/// The names of the stored codecs, for rendering.
pub fn names_of(cs: &Vec<CompressionType>) -> (r: Vec<Vec<u8>>)
    ensures
        r.deep_view() == spec_names_of(cs@),
{
    let mut r: Vec<Vec<u8>> = Vec::new();
    let mut i: usize = 0;
    while i < cs.len()
        invariant
            0 <= i <= cs@.len(),
            r@.len() == i,
            forall|j: int| 0 <= j < i ==> r@[j]@ == spec_compression_name(cs@[j]),
        decreases cs@.len() - i,
    {
        r.push(compression_name(cs[i]));
        i = i + 1;
    }
    proof {
        assert(r.deep_view() =~~= spec_names_of(cs@));
    }
    r
}

/// An owned copy of a list of byte strings, for rendering.
pub fn copy_bytes_list(v: &Vec<Vec<u8>>) -> (r: Vec<Vec<u8>>)
    ensures
        r.deep_view() == v.deep_view(),
{
    let mut r: Vec<Vec<u8>> = Vec::new();
    let mut i: usize = 0;
    while i < v.len()
        invariant
            0 <= i <= v@.len(),
            r@.len() == i,
            forall|j: int| 0 <= j < i ==> r@[j]@ == v@[j]@,
        decreases v@.len() - i,
    {
        r.push(bytes_of(v[i].as_slice()));
        i = i + 1;
    }
    proof {
        assert(r.deep_view() =~~= v.deep_view());
    }
    r
}

pub fn endpoints_value(v: Value) -> (r: Option<Vec<Vec<u8>>>)
    ensures
        match r {
            None => spec_endpoints_value(v@) is None,
            Some(items) => spec_endpoints_value(v@) == Some(items.deep_view()),
        },
{
    match v {
        Value::List(items) => Some(items),
        _ => None,
    }
}

/// Per-section application of one key, and per-section rendering.
///
/// Long sections are handled in chained parts so that each function stays
/// small; the first part of a chain speaks for the whole section.

#[verifier::opaque]
pub open spec fn spec_apply_top(t: TiKvConfigView, k: Seq<u8>, v: ValueV) -> Result<TiKvConfigView, ParseError> {
    if k == seq![108u8, 111, 103, 45, 108, 101, 118, 101, 108] {  // "log-level"
        match spec_level_value(v) {
            None => Err(ParseError::BadValue),
            Some(x) => Ok(TiKvConfigView { log_level: x, ..t }),
        }
    } else if k == seq![108u8, 111, 103, 45, 102, 105, 108, 101] {  // "log-file"
        match spec_bytes_value(v) {
            None => Err(ParseError::BadValue),
            Some(x) => Ok(TiKvConfigView { log_file: x, ..t }),
        }
    } else {
        Ok(t)
    }
}

#[verifier::rlimit(100)]
#[verifier::spinoff_prover]
pub fn apply_top(t: &mut TiKvConfig, k: &[u8], v: Value) -> (r: Result<(), ParseError>)
    ensures
        ({
            match spec_apply_top(old(t)@, k@, v@) {
                Ok(c2) => r is Ok && final(t)@ == c2,
                Err(e) => r == Err::<(), ParseError>(e) && final(t)@ == old(t)@,
            }
        }),
{
    proof {
        reveal(spec_apply_top);
    }
    if bytes_eq(k, [108u8, 111, 103, 45, 108, 101, 118, 101, 108].as_slice()) {  // "log-level"
        match level_value(v) {
            None => Err(ParseError::BadValue),
            Some(x) => {
                t.log_level = x;
                Ok(())
            },
        }
    } else if bytes_eq(k, [108u8, 111, 103, 45, 102, 105, 108, 101].as_slice()) {  // "log-file"
        match bytes_value(v) {
            None => Err(ParseError::BadValue),
            Some(x) => {
                t.log_file = x;
                Ok(())
            },
        }
    } else {
        Ok(())
    }
}

#[verifier::opaque]
pub open spec fn spec_top_doc(t: TiKvConfigView) -> Seq<u8> {
    spec_render_line(LineV::Pair(seq![108u8, 111, 103, 45, 108, 101, 118, 101, 108], ValueV::Str(spec_log_level_name(t.log_level))))
        + spec_render_line(LineV::Pair(seq![108u8, 111, 103, 45, 102, 105, 108, 101], ValueV::Str(t.log_file)))
}

#[verifier::rlimit(100)]
#[verifier::spinoff_prover]
pub fn render_top_section(out: &mut Vec<u8>, t: &TiKvConfig)
    ensures
        final(out)@ == old(out)@ + spec_top_doc(t@),
{
    let val = Value::Str(log_level_name(t.log_level));
    render_pair(out, [108u8, 111, 103, 45, 108, 101, 118, 101, 108].as_slice(), &val);  // "log-level"
    let val = Value::Str(bytes_of(t.log_file.as_slice()));
    render_pair(out, [108u8, 111, 103, 45, 102, 105, 108, 101].as_slice(), &val);  // "log-file"
    proof {
        reveal(spec_top_doc);
        assert(out@ =~= old(out)@ + spec_top_doc(t@));
    }
}

#[verifier::opaque]
pub open spec fn spec_apply_server(c: ServerConfigView, k: Seq<u8>, v: ValueV) -> Result<ServerConfigView, ParseError> {
    if k == seq![97u8, 100, 100, 114] {  // "addr"
        match spec_bytes_value(v) {
            None => Err(ParseError::BadValue),
            Some(x) => Ok(ServerConfigView { addr: x, ..c }),
        }
    } else if k == seq![97u8, 100, 118, 101, 114, 116, 105, 115, 101, 45, 97, 100, 100, 114] {  // "advertise-addr"
        match spec_bytes_value(v) {
            None => Err(ParseError::BadValue),
            Some(x) => Ok(ServerConfigView { advertise_addr: x, ..c }),
        }
    } else {
        Ok(c)
    }
}

#[verifier::rlimit(100)]
#[verifier::spinoff_prover]
pub fn apply_server(c: &mut ServerConfig, k: &[u8], v: Value) -> (r: Result<(), ParseError>)
    ensures
        ({
            match spec_apply_server(old(c)@, k@, v@) {
                Ok(c2) => r is Ok && final(c)@ == c2,
                Err(e) => r == Err::<(), ParseError>(e) && final(c)@ == old(c)@,
            }
        }),
{
    proof {
        reveal(spec_apply_server);
    }
    if bytes_eq(k, [97u8, 100, 100, 114].as_slice()) {  // "addr"
        match bytes_value(v) {
            None => Err(ParseError::BadValue),
            Some(x) => {
                c.addr = x;
                Ok(())
            },
        }
    } else if bytes_eq(k, [97u8, 100, 118, 101, 114, 116, 105, 115, 101, 45, 97, 100, 100, 114].as_slice()) {  // "advertise-addr"
        match bytes_value(v) {
            None => Err(ParseError::BadValue),
            Some(x) => {
                c.advertise_addr = x;
                Ok(())
            },
        }
    } else {
        Ok(())
    }
}

#[verifier::opaque]
pub open spec fn spec_server_doc(c: ServerConfigView) -> Seq<u8> {
    spec_render_line(LineV::Pair(seq![97u8, 100, 100, 114], ValueV::Str(c.addr)))
        + spec_render_line(LineV::Pair(seq![97u8, 100, 118, 101, 114, 116, 105, 115, 101, 45, 97, 100, 100, 114], ValueV::Str(c.advertise_addr)))
}

#[verifier::rlimit(100)]
#[verifier::spinoff_prover]
pub fn render_server_section(out: &mut Vec<u8>, c: &ServerConfig)
    ensures
        final(out)@ == old(out)@ + spec_server_doc(c@),
{
    let val = Value::Str(bytes_of(c.addr.as_slice()));
    render_pair(out, [97u8, 100, 100, 114].as_slice(), &val);  // "addr"
    let val = Value::Str(bytes_of(c.advertise_addr.as_slice()));
    render_pair(out, [97u8, 100, 118, 101, 114, 116, 105, 115, 101, 45, 97, 100, 100, 114].as_slice(), &val);  // "advertise-addr"
    proof {
        reveal(spec_server_doc);
        assert(out@ =~= old(out)@ + spec_server_doc(c@));
    }
}

#[verifier::opaque]
pub open spec fn spec_apply_storage(c: StorageConfigView, k: Seq<u8>, v: ValueV) -> Result<StorageConfigView, ParseError> {
    if k == seq![100u8, 97, 116, 97, 45, 100, 105, 114] {  // "data-dir"
        match spec_bytes_value(v) {
            None => Err(ParseError::BadValue),
            Some(x) => Ok(StorageConfigView { data_dir: x, ..c }),
        }
    } else {
        Ok(c)
    }
}

#[verifier::rlimit(100)]
#[verifier::spinoff_prover]
pub fn apply_storage(c: &mut StorageConfig, k: &[u8], v: Value) -> (r: Result<(), ParseError>)
    ensures
        ({
            match spec_apply_storage(old(c)@, k@, v@) {
                Ok(c2) => r is Ok && final(c)@ == c2,
                Err(e) => r == Err::<(), ParseError>(e) && final(c)@ == old(c)@,
            }
        }),
{
    proof {
        reveal(spec_apply_storage);
    }
    if bytes_eq(k, [100u8, 97, 116, 97, 45, 100, 105, 114].as_slice()) {  // "data-dir"
        match bytes_value(v) {
            None => Err(ParseError::BadValue),
            Some(x) => {
                c.data_dir = x;
                Ok(())
            },
        }
    } else {
        Ok(())
    }
}

#[verifier::opaque]
pub open spec fn spec_storage_doc(c: StorageConfigView) -> Seq<u8> {
    spec_render_line(LineV::Pair(seq![100u8, 97, 116, 97, 45, 100, 105, 114], ValueV::Str(c.data_dir)))
}

#[verifier::rlimit(100)]
#[verifier::spinoff_prover]
pub fn render_storage_section(out: &mut Vec<u8>, c: &StorageConfig)
    ensures
        final(out)@ == old(out)@ + spec_storage_doc(c@),
{
    let val = Value::Str(bytes_of(c.data_dir.as_slice()));
    render_pair(out, [100u8, 97, 116, 97, 45, 100, 105, 114].as_slice(), &val);  // "data-dir"
    proof {
        reveal(spec_storage_doc);
        assert(out@ =~= old(out)@ + spec_storage_doc(c@));
    }
}

#[verifier::opaque]
pub open spec fn spec_apply_raftstore(c: RaftstoreConfigView, k: Seq<u8>, v: ValueV) -> Result<RaftstoreConfigView, ParseError> {
    if k == seq![114u8, 97, 102, 116, 100, 98, 45, 112, 97, 116, 104] {  // "raftdb-path"
        match spec_bytes_value(v) {
            None => Err(ParseError::BadValue),
            Some(x) => Ok(RaftstoreConfigView { raftdb_path: x, ..c }),
        }
    } else {
        Ok(c)
    }
}

#[verifier::rlimit(100)]
#[verifier::spinoff_prover]
pub fn apply_raftstore(c: &mut RaftstoreConfig, k: &[u8], v: Value) -> (r: Result<(), ParseError>)
    ensures
        ({
            match spec_apply_raftstore(old(c)@, k@, v@) {
                Ok(c2) => r is Ok && final(c)@ == c2,
                Err(e) => r == Err::<(), ParseError>(e) && final(c)@ == old(c)@,
            }
        }),
{
    proof {
        reveal(spec_apply_raftstore);
    }
    if bytes_eq(k, [114u8, 97, 102, 116, 100, 98, 45, 112, 97, 116, 104].as_slice()) {  // "raftdb-path"
        match bytes_value(v) {
            None => Err(ParseError::BadValue),
            Some(x) => {
                c.raftdb_path = x;
                Ok(())
            },
        }
    } else {
        Ok(())
    }
}

#[verifier::opaque]
pub open spec fn spec_raftstore_doc(c: RaftstoreConfigView) -> Seq<u8> {
    spec_render_line(LineV::Pair(seq![114u8, 97, 102, 116, 100, 98, 45, 112, 97, 116, 104], ValueV::Str(c.raftdb_path)))
}

#[verifier::rlimit(100)]
#[verifier::spinoff_prover]
pub fn render_raftstore_section(out: &mut Vec<u8>, c: &RaftstoreConfig)
    ensures
        final(out)@ == old(out)@ + spec_raftstore_doc(c@),
{
    let val = Value::Str(bytes_of(c.raftdb_path.as_slice()));
    render_pair(out, [114u8, 97, 102, 116, 100, 98, 45, 112, 97, 116, 104].as_slice(), &val);  // "raftdb-path"
    proof {
        reveal(spec_raftstore_doc);
        assert(out@ =~= old(out)@ + spec_raftstore_doc(c@));
    }
}

#[verifier::opaque]
pub open spec fn spec_apply_pd(c: PdConfigView, k: Seq<u8>, v: ValueV) -> Result<PdConfigView, ParseError> {
    if k == seq![101u8, 110, 100, 112, 111, 105, 110, 116, 115] {  // "endpoints"
        match spec_endpoints_value(v) {
            None => Err(ParseError::BadValue),
            Some(x) => Ok(PdConfigView { endpoints: x, ..c }),
        }
    } else {
        Ok(c)
    }
}

#[verifier::rlimit(100)]
#[verifier::spinoff_prover]
pub fn apply_pd(c: &mut PdConfig, k: &[u8], v: Value) -> (r: Result<(), ParseError>)
    ensures
        ({
            match spec_apply_pd(old(c)@, k@, v@) {
                Ok(c2) => r is Ok && final(c)@ == c2,
                Err(e) => r == Err::<(), ParseError>(e) && final(c)@ == old(c)@,
            }
        }),
{
    proof {
        reveal(spec_apply_pd);
    }
    if bytes_eq(k, [101u8, 110, 100, 112, 111, 105, 110, 116, 115].as_slice()) {  // "endpoints"
        match endpoints_value(v) {
            None => Err(ParseError::BadValue),
            Some(x) => {
                c.endpoints = x;
                Ok(())
            },
        }
    } else {
        Ok(())
    }
}

#[verifier::opaque]
pub open spec fn spec_pd_doc(c: PdConfigView) -> Seq<u8> {
    spec_render_line(LineV::Pair(seq![101u8, 110, 100, 112, 111, 105, 110, 116, 115], ValueV::List(c.endpoints)))
}

#[verifier::rlimit(100)]
#[verifier::spinoff_prover]
pub fn render_pd_section(out: &mut Vec<u8>, c: &PdConfig)
    ensures
        final(out)@ == old(out)@ + spec_pd_doc(c@),
{
    let val = Value::List(copy_bytes_list(&c.endpoints));
    render_pair(out, [101u8, 110, 100, 112, 111, 105, 110, 116, 115].as_slice(), &val);  // "endpoints"
    proof {
        reveal(spec_pd_doc);
        assert(out@ =~= old(out)@ + spec_pd_doc(c@));
    }
}

#[verifier::opaque]
pub open spec fn spec_apply_metric(c: MetricConfigView, k: Seq<u8>, v: ValueV) -> Result<MetricConfigView, ParseError> {
    if k == seq![105u8, 110, 116, 101, 114, 118, 97, 108] {  // "interval"
        match spec_dur_value(v) {
            None => Err(ParseError::BadValue),
            Some(x) => Ok(MetricConfigView { interval: x, ..c }),
        }
    } else if k == seq![97u8, 100, 100, 114, 101, 115, 115] {  // "address"
        match spec_bytes_value(v) {
            None => Err(ParseError::BadValue),
            Some(x) => Ok(MetricConfigView { address: x, ..c }),
        }
    } else if k == seq![106u8, 111, 98] {  // "job"
        match spec_bytes_value(v) {
            None => Err(ParseError::BadValue),
            Some(x) => Ok(MetricConfigView { job: x, ..c }),
        }
    } else {
        Ok(c)
    }
}

#[verifier::rlimit(100)]
#[verifier::spinoff_prover]
pub fn apply_metric(c: &mut MetricConfig, k: &[u8], v: Value) -> (r: Result<(), ParseError>)
    ensures
        ({
            match spec_apply_metric(old(c)@, k@, v@) {
                Ok(c2) => r is Ok && final(c)@ == c2,
                Err(e) => r == Err::<(), ParseError>(e) && final(c)@ == old(c)@,
            }
        }),
{
    proof {
        reveal(spec_apply_metric);
    }
    if bytes_eq(k, [105u8, 110, 116, 101, 114, 118, 97, 108].as_slice()) {  // "interval"
        match dur_value(v) {
            None => Err(ParseError::BadValue),
            Some(x) => {
                c.interval = x;
                Ok(())
            },
        }
    } else if bytes_eq(k, [97u8, 100, 100, 114, 101, 115, 115].as_slice()) {  // "address"
        match bytes_value(v) {
            None => Err(ParseError::BadValue),
            Some(x) => {
                c.address = x;
                Ok(())
            },
        }
    } else if bytes_eq(k, [106u8, 111, 98].as_slice()) {  // "job"
        match bytes_value(v) {
            None => Err(ParseError::BadValue),
            Some(x) => {
                c.job = x;
                Ok(())
            },
        }
    } else {
        Ok(())
    }
}

#[verifier::opaque]
pub open spec fn spec_metric_doc(c: MetricConfigView) -> Seq<u8> {
    spec_render_line(LineV::Pair(seq![105u8, 110, 116, 101, 114, 118, 97, 108], ValueV::Str(spec_fmt_dur(c.interval.0))))
        + spec_render_line(LineV::Pair(seq![97u8, 100, 100, 114, 101, 115, 115], ValueV::Str(c.address)))
        + spec_render_line(LineV::Pair(seq![106u8, 111, 98], ValueV::Str(c.job)))
}

#[verifier::rlimit(100)]
#[verifier::spinoff_prover]
pub fn render_metric_section(out: &mut Vec<u8>, c: &MetricConfig)
    ensures
        final(out)@ == old(out)@ + spec_metric_doc(c@),
{
    let val = Value::Str(fmt_dur(c.interval.0));
    render_pair(out, [105u8, 110, 116, 101, 114, 118, 97, 108].as_slice(), &val);  // "interval"
    let val = Value::Str(bytes_of(c.address.as_slice()));
    render_pair(out, [97u8, 100, 100, 114, 101, 115, 115].as_slice(), &val);  // "address"
    let val = Value::Str(bytes_of(c.job.as_slice()));
    render_pair(out, [106u8, 111, 98].as_slice(), &val);  // "job"
    proof {
        reveal(spec_metric_doc);
        assert(out@ =~= old(out)@ + spec_metric_doc(c@));
    }
}

#[verifier::opaque]
pub open spec fn spec_apply_db_part1(c: DbConfigView, k: Seq<u8>, v: ValueV) -> Result<DbConfigView, ParseError> {
    if k == seq![119u8, 97, 108, 45, 114, 101, 99, 111, 118, 101, 114, 121, 45, 109, 111, 100, 101] {  // "wal-recovery-mode"
        match spec_recovery_value(v) {
            None => Err(ParseError::BadValue),
            Some(x) => Ok(DbConfigView { wal_recovery_mode: x, ..c }),
        }
    } else if k == seq![119u8, 97, 108, 45, 100, 105, 114] {  // "wal-dir"
        match spec_bytes_value(v) {
            None => Err(ParseError::BadValue),
            Some(x) => Ok(DbConfigView { wal_dir: x, ..c }),
        }
    } else if k == seq![119u8, 97, 108, 45, 116, 116, 108, 45, 115, 101, 99, 111, 110, 100, 115] {  // "wal-ttl-seconds"
        match spec_u64_value(v) {
            None => Err(ParseError::BadValue),
            Some(x) => Ok(DbConfigView { wal_ttl_seconds: x, ..c }),
        }
    } else if k == seq![119u8, 97, 108, 45, 115, 105, 122, 101, 45, 108, 105, 109, 105, 116] {  // "wal-size-limit"
        match spec_size_value(v) {
            None => Err(ParseError::BadValue),
            Some(x) => Ok(DbConfigView { wal_size_limit: x, ..c }),
        }
    } else {
        spec_apply_db_part2(c, k, v)
    }
}

#[verifier::rlimit(100)]
#[verifier::spinoff_prover]
pub fn apply_db_part1(c: &mut DbConfig, k: &[u8], v: Value) -> (r: Result<(), ParseError>)
    ensures
        ({
            match spec_apply_db_part1(old(c)@, k@, v@) {
                Ok(c2) => r is Ok && final(c)@ == c2,
                Err(e) => r == Err::<(), ParseError>(e) && final(c)@ == old(c)@,
            }
        }),
{
    proof {
        reveal(spec_apply_db_part1);
    }
    if bytes_eq(k, [119u8, 97, 108, 45, 114, 101, 99, 111, 118, 101, 114, 121, 45, 109, 111, 100, 101].as_slice()) {  // "wal-recovery-mode"
        match recovery_value(v) {
            None => Err(ParseError::BadValue),
            Some(x) => {
                c.wal_recovery_mode = x;
                Ok(())
            },
        }
    } else if bytes_eq(k, [119u8, 97, 108, 45, 100, 105, 114].as_slice()) {  // "wal-dir"
        match bytes_value(v) {
            None => Err(ParseError::BadValue),
            Some(x) => {
                c.wal_dir = x;
                Ok(())
            },
        }
    } else if bytes_eq(k, [119u8, 97, 108, 45, 116, 116, 108, 45, 115, 101, 99, 111, 110, 100, 115].as_slice()) {  // "wal-ttl-seconds"
        match u64_value(v) {
            None => Err(ParseError::BadValue),
            Some(x) => {
                c.wal_ttl_seconds = x;
                Ok(())
            },
        }
    } else if bytes_eq(k, [119u8, 97, 108, 45, 115, 105, 122, 101, 45, 108, 105, 109, 105, 116].as_slice()) {  // "wal-size-limit"
        match size_value(v) {
            None => Err(ParseError::BadValue),
            Some(x) => {
                c.wal_size_limit = x;
                Ok(())
            },
        }
    } else {
        apply_db_part2(c, k, v)
    }
}

#[verifier::opaque]
pub open spec fn spec_apply_db_part2(c: DbConfigView, k: Seq<u8>, v: ValueV) -> Result<DbConfigView, ParseError> {
    if k == seq![109u8, 97, 120, 45, 116, 111, 116, 97, 108, 45, 119, 97, 108, 45, 115, 105, 122, 101] {  // "max-total-wal-size"
        match spec_size_value(v) {
            None => Err(ParseError::BadValue),
            Some(x) => Ok(DbConfigView { max_total_wal_size: x, ..c }),
        }
    } else if k == seq![109u8, 97, 120, 45, 98, 97, 99, 107, 103, 114, 111, 117, 110, 100, 45, 106, 111, 98, 115] {  // "max-background-jobs"
        match spec_i32_value(v) {
            None => Err(ParseError::BadValue),
            Some(x) => Ok(DbConfigView { max_background_jobs: x, ..c }),
        }
    } else if k == seq![109u8, 97, 120, 45, 109, 97, 110, 105, 102, 101, 115, 116, 45, 102, 105, 108, 101, 45, 115, 105, 122, 101] {  // "max-manifest-file-size"
        match spec_size_value(v) {
            None => Err(ParseError::BadValue),
            Some(x) => Ok(DbConfigView { max_manifest_file_size: x, ..c }),
        }
    } else if k == seq![99u8, 114, 101, 97, 116, 101, 45, 105, 102, 45, 109, 105, 115, 115, 105, 110, 103] {  // "create-if-missing"
        match spec_bool_value(v) {
            None => Err(ParseError::BadValue),
            Some(x) => Ok(DbConfigView { create_if_missing: x, ..c }),
        }
    } else {
        spec_apply_db_part3(c, k, v)
    }
}

#[verifier::rlimit(100)]
#[verifier::spinoff_prover]
pub fn apply_db_part2(c: &mut DbConfig, k: &[u8], v: Value) -> (r: Result<(), ParseError>)
    ensures
        ({
            match spec_apply_db_part2(old(c)@, k@, v@) {
                Ok(c2) => r is Ok && final(c)@ == c2,
                Err(e) => r == Err::<(), ParseError>(e) && final(c)@ == old(c)@,
            }
        }),
{
    proof {
        reveal(spec_apply_db_part2);
    }
    if bytes_eq(k, [109u8, 97, 120, 45, 116, 111, 116, 97, 108, 45, 119, 97, 108, 45, 115, 105, 122, 101].as_slice()) {  // "max-total-wal-size"
        match size_value(v) {
            None => Err(ParseError::BadValue),
            Some(x) => {
                c.max_total_wal_size = x;
                Ok(())
            },
        }
    } else if bytes_eq(k, [109u8, 97, 120, 45, 98, 97, 99, 107, 103, 114, 111, 117, 110, 100, 45, 106, 111, 98, 115].as_slice()) {  // "max-background-jobs"
        match i32_value(v) {
            None => Err(ParseError::BadValue),
            Some(x) => {
                c.max_background_jobs = x;
                Ok(())
            },
        }
    } else if bytes_eq(k, [109u8, 97, 120, 45, 109, 97, 110, 105, 102, 101, 115, 116, 45, 102, 105, 108, 101, 45, 115, 105, 122, 101].as_slice()) {  // "max-manifest-file-size"
        match size_value(v) {
            None => Err(ParseError::BadValue),
            Some(x) => {
                c.max_manifest_file_size = x;
                Ok(())
            },
        }
    } else if bytes_eq(k, [99u8, 114, 101, 97, 116, 101, 45, 105, 102, 45, 109, 105, 115, 115, 105, 110, 103].as_slice()) {  // "create-if-missing"
        match bool_value(v) {
            None => Err(ParseError::BadValue),
            Some(x) => {
                c.create_if_missing = x;
                Ok(())
            },
        }
    } else {
        apply_db_part3(c, k, v)
    }
}

#[verifier::opaque]
pub open spec fn spec_apply_db_part3(c: DbConfigView, k: Seq<u8>, v: ValueV) -> Result<DbConfigView, ParseError> {
    if k == seq![109u8, 97, 120, 45, 111, 112, 101, 110, 45, 102, 105, 108, 101, 115] {  // "max-open-files"
        match spec_i32_value(v) {
            None => Err(ParseError::BadValue),
            Some(x) => Ok(DbConfigView { max_open_files: x, ..c }),
        }
    } else if k == seq![101u8, 110, 97, 98, 108, 101, 45, 115, 116, 97, 116, 105, 115, 116, 105, 99, 115] {  // "enable-statistics"
        match spec_bool_value(v) {
            None => Err(ParseError::BadValue),
            Some(x) => Ok(DbConfigView { enable_statistics: x, ..c }),
        }
    } else if k == seq![115u8, 116, 97, 116, 115, 45, 100, 117, 109, 112, 45, 112, 101, 114, 105, 111, 100] {  // "stats-dump-period"
        match spec_dur_value(v) {
            None => Err(ParseError::BadValue),
            Some(x) => Ok(DbConfigView { stats_dump_period: x, ..c }),
        }
    } else if k == seq![99u8, 111, 109, 112, 97, 99, 116, 105, 111, 110, 45, 114, 101, 97, 100, 97, 104, 101, 97, 100, 45, 115, 105, 122, 101] {  // "compaction-readahead-size"
        match spec_size_value(v) {
            None => Err(ParseError::BadValue),
            Some(x) => Ok(DbConfigView { compaction_readahead_size: x, ..c }),
        }
    } else {
        spec_apply_db_part4(c, k, v)
    }
}

#[verifier::rlimit(100)]
#[verifier::spinoff_prover]
pub fn apply_db_part3(c: &mut DbConfig, k: &[u8], v: Value) -> (r: Result<(), ParseError>)
    ensures
        ({
            match spec_apply_db_part3(old(c)@, k@, v@) {
                Ok(c2) => r is Ok && final(c)@ == c2,
                Err(e) => r == Err::<(), ParseError>(e) && final(c)@ == old(c)@,
            }
        }),
{
    proof {
        reveal(spec_apply_db_part3);
    }
    if bytes_eq(k, [109u8, 97, 120, 45, 111, 112, 101, 110, 45, 102, 105, 108, 101, 115].as_slice()) {  // "max-open-files"
        match i32_value(v) {
            None => Err(ParseError::BadValue),
            Some(x) => {
                c.max_open_files = x;
                Ok(())
            },
        }
    } else if bytes_eq(k, [101u8, 110, 97, 98, 108, 101, 45, 115, 116, 97, 116, 105, 115, 116, 105, 99, 115].as_slice()) {  // "enable-statistics"
        match bool_value(v) {
            None => Err(ParseError::BadValue),
            Some(x) => {
                c.enable_statistics = x;
                Ok(())
            },
        }
    } else if bytes_eq(k, [115u8, 116, 97, 116, 115, 45, 100, 117, 109, 112, 45, 112, 101, 114, 105, 111, 100].as_slice()) {  // "stats-dump-period"
        match dur_value(v) {
            None => Err(ParseError::BadValue),
            Some(x) => {
                c.stats_dump_period = x;
                Ok(())
            },
        }
    } else if bytes_eq(k, [99u8, 111, 109, 112, 97, 99, 116, 105, 111, 110, 45, 114, 101, 97, 100, 97, 104, 101, 97, 100, 45, 115, 105, 122, 101].as_slice()) {  // "compaction-readahead-size"
        match size_value(v) {
            None => Err(ParseError::BadValue),
            Some(x) => {
                c.compaction_readahead_size = x;
                Ok(())
            },
        }
    } else {
        apply_db_part4(c, k, v)
    }
}

#[verifier::opaque]
pub open spec fn spec_apply_db_part4(c: DbConfigView, k: Seq<u8>, v: ValueV) -> Result<DbConfigView, ParseError> {
    if k == seq![105u8, 110, 102, 111, 45, 108, 111, 103, 45, 109, 97, 120, 45, 115, 105, 122, 101] {  // "info-log-max-size"
        match spec_size_value(v) {
            None => Err(ParseError::BadValue),
            Some(x) => Ok(DbConfigView { info_log_max_size: x, ..c }),
        }
    } else if k == seq![105u8, 110, 102, 111, 45, 108, 111, 103, 45, 114, 111, 108, 108, 45, 116, 105, 109, 101] {  // "info-log-roll-time"
        match spec_dur_value(v) {
            None => Err(ParseError::BadValue),
            Some(x) => Ok(DbConfigView { info_log_roll_time: x, ..c }),
        }
    } else if k == seq![105u8, 110, 102, 111, 45, 108, 111, 103, 45, 100, 105, 114] {  // "info-log-dir"
        match spec_bytes_value(v) {
            None => Err(ParseError::BadValue),
            Some(x) => Ok(DbConfigView { info_log_dir: x, ..c }),
        }
    } else if k == seq![114u8, 97, 116, 101, 45, 98, 121, 116, 101, 115, 45, 112, 101, 114, 45, 115, 101, 99] {  // "rate-bytes-per-sec"
        match spec_size_value(v) {
            None => Err(ParseError::BadValue),
            Some(x) => Ok(DbConfigView { rate_bytes_per_sec: x, ..c }),
        }
    } else {
        spec_apply_db_part5(c, k, v)
    }
}

#[verifier::rlimit(100)]
#[verifier::spinoff_prover]
pub fn apply_db_part4(c: &mut DbConfig, k: &[u8], v: Value) -> (r: Result<(), ParseError>)
    ensures
        ({
            match spec_apply_db_part4(old(c)@, k@, v@) {
                Ok(c2) => r is Ok && final(c)@ == c2,
                Err(e) => r == Err::<(), ParseError>(e) && final(c)@ == old(c)@,
            }
        }),
{
    proof {
        reveal(spec_apply_db_part4);
    }
    if bytes_eq(k, [105u8, 110, 102, 111, 45, 108, 111, 103, 45, 109, 97, 120, 45, 115, 105, 122, 101].as_slice()) {  // "info-log-max-size"
        match size_value(v) {
            None => Err(ParseError::BadValue),
            Some(x) => {
                c.info_log_max_size = x;
                Ok(())
            },
        }
    } else if bytes_eq(k, [105u8, 110, 102, 111, 45, 108, 111, 103, 45, 114, 111, 108, 108, 45, 116, 105, 109, 101].as_slice()) {  // "info-log-roll-time"
        match dur_value(v) {
            None => Err(ParseError::BadValue),
            Some(x) => {
                c.info_log_roll_time = x;
                Ok(())
            },
        }
    } else if bytes_eq(k, [105u8, 110, 102, 111, 45, 108, 111, 103, 45, 100, 105, 114].as_slice()) {  // "info-log-dir"
        match bytes_value(v) {
            None => Err(ParseError::BadValue),
            Some(x) => {
                c.info_log_dir = x;
                Ok(())
            },
        }
    } else if bytes_eq(k, [114u8, 97, 116, 101, 45, 98, 121, 116, 101, 115, 45, 112, 101, 114, 45, 115, 101, 99].as_slice()) {  // "rate-bytes-per-sec"
        match size_value(v) {
            None => Err(ParseError::BadValue),
            Some(x) => {
                c.rate_bytes_per_sec = x;
                Ok(())
            },
        }
    } else {
        apply_db_part5(c, k, v)
    }
}

#[verifier::opaque]
pub open spec fn spec_apply_db_part5(c: DbConfigView, k: Seq<u8>, v: ValueV) -> Result<DbConfigView, ParseError> {
    if k == seq![109u8, 97, 120, 45, 115, 117, 98, 45, 99, 111, 109, 112, 97, 99, 116, 105, 111, 110, 115] {  // "max-sub-compactions"
        match spec_u32_value(v) {
            None => Err(ParseError::BadValue),
            Some(x) => Ok(DbConfigView { max_sub_compactions: x, ..c }),
        }
    } else if k == seq![119u8, 114, 105, 116, 97, 98, 108, 101, 45, 102, 105, 108, 101, 45, 109, 97, 120, 45, 98, 117, 102, 102, 101, 114, 45, 115, 105, 122, 101] {  // "writable-file-max-buffer-size"
        match spec_size_value(v) {
            None => Err(ParseError::BadValue),
            Some(x) => Ok(DbConfigView { writable_file_max_buffer_size: x, ..c }),
        }
    } else if k == seq![117u8, 115, 101, 45, 100, 105, 114, 101, 99, 116, 45, 105, 111, 45, 102, 111, 114, 45, 102, 108, 117, 115, 104, 45, 97, 110, 100, 45, 99, 111, 109, 112, 97, 99, 116, 105, 111, 110] {  // "use-direct-io-for-flush-and-compaction"
        match spec_bool_value(v) {
            None => Err(ParseError::BadValue),
            Some(x) => Ok(DbConfigView { use_direct_io_for_flush_and_compaction: x, ..c }),
        }
    } else if k == seq![101u8, 110, 97, 98, 108, 101, 45, 112, 105, 112, 101, 108, 105, 110, 101, 100, 45, 119, 114, 105, 116, 101] {  // "enable-pipelined-write"
        match spec_bool_value(v) {
            None => Err(ParseError::BadValue),
            Some(x) => Ok(DbConfigView { enable_pipelined_write: x, ..c }),
        }
    } else {
        spec_apply_db_part6(c, k, v)
    }
}

#[verifier::rlimit(100)]
#[verifier::spinoff_prover]
pub fn apply_db_part5(c: &mut DbConfig, k: &[u8], v: Value) -> (r: Result<(), ParseError>)
    ensures
        ({
            match spec_apply_db_part5(old(c)@, k@, v@) {
                Ok(c2) => r is Ok && final(c)@ == c2,
                Err(e) => r == Err::<(), ParseError>(e) && final(c)@ == old(c)@,
            }
        }),
{
    proof {
        reveal(spec_apply_db_part5);
    }
    if bytes_eq(k, [109u8, 97, 120, 45, 115, 117, 98, 45, 99, 111, 109, 112, 97, 99, 116, 105, 111, 110, 115].as_slice()) {  // "max-sub-compactions"
        match u32_value(v) {
            None => Err(ParseError::BadValue),
            Some(x) => {
                c.max_sub_compactions = x;
                Ok(())
            },
        }
    } else if bytes_eq(k, [119u8, 114, 105, 116, 97, 98, 108, 101, 45, 102, 105, 108, 101, 45, 109, 97, 120, 45, 98, 117, 102, 102, 101, 114, 45, 115, 105, 122, 101].as_slice()) {  // "writable-file-max-buffer-size"
        match size_value(v) {
            None => Err(ParseError::BadValue),
            Some(x) => {
                c.writable_file_max_buffer_size = x;
                Ok(())
            },
        }
    } else if bytes_eq(k, [117u8, 115, 101, 45, 100, 105, 114, 101, 99, 116, 45, 105, 111, 45, 102, 111, 114, 45, 102, 108, 117, 115, 104, 45, 97, 110, 100, 45, 99, 111, 109, 112, 97, 99, 116, 105, 111, 110].as_slice()) {  // "use-direct-io-for-flush-and-compaction"
        match bool_value(v) {
            None => Err(ParseError::BadValue),
            Some(x) => {
                c.use_direct_io_for_flush_and_compaction = x;
                Ok(())
            },
        }
    } else if bytes_eq(k, [101u8, 110, 97, 98, 108, 101, 45, 112, 105, 112, 101, 108, 105, 110, 101, 100, 45, 119, 114, 105, 116, 101].as_slice()) {  // "enable-pipelined-write"
        match bool_value(v) {
            None => Err(ParseError::BadValue),
            Some(x) => {
                c.enable_pipelined_write = x;
                Ok(())
            },
        }
    } else {
        apply_db_part6(c, k, v)
    }
}

#[verifier::opaque]
pub open spec fn spec_apply_db_part6(c: DbConfigView, k: Seq<u8>, v: ValueV) -> Result<DbConfigView, ParseError> {
    if k == seq![98u8, 97, 99, 107, 117, 112, 45, 100, 105, 114] {  // "backup-dir"
        match spec_bytes_value(v) {
            None => Err(ParseError::BadValue),
            Some(x) => Ok(DbConfigView { backup_dir: x, ..c }),
        }
    } else {
        Ok(c)
    }
}

#[verifier::rlimit(100)]
#[verifier::spinoff_prover]
pub fn apply_db_part6(c: &mut DbConfig, k: &[u8], v: Value) -> (r: Result<(), ParseError>)
    ensures
        ({
            match spec_apply_db_part6(old(c)@, k@, v@) {
                Ok(c2) => r is Ok && final(c)@ == c2,
                Err(e) => r == Err::<(), ParseError>(e) && final(c)@ == old(c)@,
            }
        }),
{
    proof {
        reveal(spec_apply_db_part6);
    }
    if bytes_eq(k, [98u8, 97, 99, 107, 117, 112, 45, 100, 105, 114].as_slice()) {  // "backup-dir"
        match bytes_value(v) {
            None => Err(ParseError::BadValue),
            Some(x) => {
                c.backup_dir = x;
                Ok(())
            },
        }
    } else {
        Ok(())
    }
}

#[verifier::opaque]
pub open spec fn spec_db_part1_doc(c: DbConfigView) -> Seq<u8> {
    spec_render_line(LineV::Pair(seq![119u8, 97, 108, 45, 114, 101, 99, 111, 118, 101, 114, 121, 45, 109, 111, 100, 101], ValueV::Int(spec_recovery_mode_wire(c.wal_recovery_mode))))
        + spec_render_line(LineV::Pair(seq![119u8, 97, 108, 45, 100, 105, 114], ValueV::Str(c.wal_dir)))
        + spec_render_line(LineV::Pair(seq![119u8, 97, 108, 45, 116, 116, 108, 45, 115, 101, 99, 111, 110, 100, 115], ValueV::Int(c.wal_ttl_seconds as i64)))
        + spec_render_line(LineV::Pair(seq![119u8, 97, 108, 45, 115, 105, 122, 101, 45, 108, 105, 109, 105, 116], ValueV::Str(spec_fmt_size(c.wal_size_limit.0))))
        + spec_render_line(LineV::Pair(seq![109u8, 97, 120, 45, 116, 111, 116, 97, 108, 45, 119, 97, 108, 45, 115, 105, 122, 101], ValueV::Str(spec_fmt_size(c.max_total_wal_size.0))))
        + spec_render_line(LineV::Pair(seq![109u8, 97, 120, 45, 98, 97, 99, 107, 103, 114, 111, 117, 110, 100, 45, 106, 111, 98, 115], ValueV::Int(c.max_background_jobs as i64)))
}

#[verifier::rlimit(100)]
#[verifier::spinoff_prover]
pub fn render_db_part1_section(out: &mut Vec<u8>, c: &DbConfig)
    ensures
        final(out)@ == old(out)@ + spec_db_part1_doc(c@),
{
    let val = Value::Int(recovery_mode_wire(c.wal_recovery_mode));
    render_pair(out, [119u8, 97, 108, 45, 114, 101, 99, 111, 118, 101, 114, 121, 45, 109, 111, 100, 101].as_slice(), &val);  // "wal-recovery-mode"
    let val = Value::Str(bytes_of(c.wal_dir.as_slice()));
    render_pair(out, [119u8, 97, 108, 45, 100, 105, 114].as_slice(), &val);  // "wal-dir"
    let val = Value::Int(c.wal_ttl_seconds as i64);
    render_pair(out, [119u8, 97, 108, 45, 116, 116, 108, 45, 115, 101, 99, 111, 110, 100, 115].as_slice(), &val);  // "wal-ttl-seconds"
    let val = Value::Str(fmt_size(c.wal_size_limit.0));
    render_pair(out, [119u8, 97, 108, 45, 115, 105, 122, 101, 45, 108, 105, 109, 105, 116].as_slice(), &val);  // "wal-size-limit"
    let val = Value::Str(fmt_size(c.max_total_wal_size.0));
    render_pair(out, [109u8, 97, 120, 45, 116, 111, 116, 97, 108, 45, 119, 97, 108, 45, 115, 105, 122, 101].as_slice(), &val);  // "max-total-wal-size"
    let val = Value::Int(c.max_background_jobs as i64);
    render_pair(out, [109u8, 97, 120, 45, 98, 97, 99, 107, 103, 114, 111, 117, 110, 100, 45, 106, 111, 98, 115].as_slice(), &val);  // "max-background-jobs"
    proof {
        reveal(spec_db_part1_doc);
        assert(out@ =~= old(out)@ + spec_db_part1_doc(c@));
    }
}

#[verifier::opaque]
pub open spec fn spec_db_part2_doc(c: DbConfigView) -> Seq<u8> {
    spec_render_line(LineV::Pair(seq![109u8, 97, 120, 45, 109, 97, 110, 105, 102, 101, 115, 116, 45, 102, 105, 108, 101, 45, 115, 105, 122, 101], ValueV::Str(spec_fmt_size(c.max_manifest_file_size.0))))
        + spec_render_line(LineV::Pair(seq![99u8, 114, 101, 97, 116, 101, 45, 105, 102, 45, 109, 105, 115, 115, 105, 110, 103], ValueV::Bool(c.create_if_missing)))
        + spec_render_line(LineV::Pair(seq![109u8, 97, 120, 45, 111, 112, 101, 110, 45, 102, 105, 108, 101, 115], ValueV::Int(c.max_open_files as i64)))
        + spec_render_line(LineV::Pair(seq![101u8, 110, 97, 98, 108, 101, 45, 115, 116, 97, 116, 105, 115, 116, 105, 99, 115], ValueV::Bool(c.enable_statistics)))
        + spec_render_line(LineV::Pair(seq![115u8, 116, 97, 116, 115, 45, 100, 117, 109, 112, 45, 112, 101, 114, 105, 111, 100], ValueV::Str(spec_fmt_dur(c.stats_dump_period.0))))
        + spec_render_line(LineV::Pair(seq![99u8, 111, 109, 112, 97, 99, 116, 105, 111, 110, 45, 114, 101, 97, 100, 97, 104, 101, 97, 100, 45, 115, 105, 122, 101], ValueV::Str(spec_fmt_size(c.compaction_readahead_size.0))))
}

#[verifier::rlimit(100)]
#[verifier::spinoff_prover]
pub fn render_db_part2_section(out: &mut Vec<u8>, c: &DbConfig)
    ensures
        final(out)@ == old(out)@ + spec_db_part2_doc(c@),
{
    let val = Value::Str(fmt_size(c.max_manifest_file_size.0));
    render_pair(out, [109u8, 97, 120, 45, 109, 97, 110, 105, 102, 101, 115, 116, 45, 102, 105, 108, 101, 45, 115, 105, 122, 101].as_slice(), &val);  // "max-manifest-file-size"
    let val = Value::Bool(c.create_if_missing);
    render_pair(out, [99u8, 114, 101, 97, 116, 101, 45, 105, 102, 45, 109, 105, 115, 115, 105, 110, 103].as_slice(), &val);  // "create-if-missing"
    let val = Value::Int(c.max_open_files as i64);
    render_pair(out, [109u8, 97, 120, 45, 111, 112, 101, 110, 45, 102, 105, 108, 101, 115].as_slice(), &val);  // "max-open-files"
    let val = Value::Bool(c.enable_statistics);
    render_pair(out, [101u8, 110, 97, 98, 108, 101, 45, 115, 116, 97, 116, 105, 115, 116, 105, 99, 115].as_slice(), &val);  // "enable-statistics"
    let val = Value::Str(fmt_dur(c.stats_dump_period.0));
    render_pair(out, [115u8, 116, 97, 116, 115, 45, 100, 117, 109, 112, 45, 112, 101, 114, 105, 111, 100].as_slice(), &val);  // "stats-dump-period"
    let val = Value::Str(fmt_size(c.compaction_readahead_size.0));
    render_pair(out, [99u8, 111, 109, 112, 97, 99, 116, 105, 111, 110, 45, 114, 101, 97, 100, 97, 104, 101, 97, 100, 45, 115, 105, 122, 101].as_slice(), &val);  // "compaction-readahead-size"
    proof {
        reveal(spec_db_part2_doc);
        assert(out@ =~= old(out)@ + spec_db_part2_doc(c@));
    }
}

#[verifier::opaque]
pub open spec fn spec_db_part3_doc(c: DbConfigView) -> Seq<u8> {
    spec_render_line(LineV::Pair(seq![105u8, 110, 102, 111, 45, 108, 111, 103, 45, 109, 97, 120, 45, 115, 105, 122, 101], ValueV::Str(spec_fmt_size(c.info_log_max_size.0))))
        + spec_render_line(LineV::Pair(seq![105u8, 110, 102, 111, 45, 108, 111, 103, 45, 114, 111, 108, 108, 45, 116, 105, 109, 101], ValueV::Str(spec_fmt_dur(c.info_log_roll_time.0))))
        + spec_render_line(LineV::Pair(seq![105u8, 110, 102, 111, 45, 108, 111, 103, 45, 100, 105, 114], ValueV::Str(c.info_log_dir)))
        + spec_render_line(LineV::Pair(seq![114u8, 97, 116, 101, 45, 98, 121, 116, 101, 115, 45, 112, 101, 114, 45, 115, 101, 99], ValueV::Str(spec_fmt_size(c.rate_bytes_per_sec.0))))
        + spec_render_line(LineV::Pair(seq![109u8, 97, 120, 45, 115, 117, 98, 45, 99, 111, 109, 112, 97, 99, 116, 105, 111, 110, 115], ValueV::Int(c.max_sub_compactions as i64)))
        + spec_render_line(LineV::Pair(seq![119u8, 114, 105, 116, 97, 98, 108, 101, 45, 102, 105, 108, 101, 45, 109, 97, 120, 45, 98, 117, 102, 102, 101, 114, 45, 115, 105, 122, 101], ValueV::Str(spec_fmt_size(c.writable_file_max_buffer_size.0))))
}

#[verifier::rlimit(100)]
#[verifier::spinoff_prover]
pub fn render_db_part3_section(out: &mut Vec<u8>, c: &DbConfig)
    ensures
        final(out)@ == old(out)@ + spec_db_part3_doc(c@),
{
    let val = Value::Str(fmt_size(c.info_log_max_size.0));
    render_pair(out, [105u8, 110, 102, 111, 45, 108, 111, 103, 45, 109, 97, 120, 45, 115, 105, 122, 101].as_slice(), &val);  // "info-log-max-size"
    let val = Value::Str(fmt_dur(c.info_log_roll_time.0));
    render_pair(out, [105u8, 110, 102, 111, 45, 108, 111, 103, 45, 114, 111, 108, 108, 45, 116, 105, 109, 101].as_slice(), &val);  // "info-log-roll-time"
    let val = Value::Str(bytes_of(c.info_log_dir.as_slice()));
    render_pair(out, [105u8, 110, 102, 111, 45, 108, 111, 103, 45, 100, 105, 114].as_slice(), &val);  // "info-log-dir"
    let val = Value::Str(fmt_size(c.rate_bytes_per_sec.0));
    render_pair(out, [114u8, 97, 116, 101, 45, 98, 121, 116, 101, 115, 45, 112, 101, 114, 45, 115, 101, 99].as_slice(), &val);  // "rate-bytes-per-sec"
    let val = Value::Int(c.max_sub_compactions as i64);
    render_pair(out, [109u8, 97, 120, 45, 115, 117, 98, 45, 99, 111, 109, 112, 97, 99, 116, 105, 111, 110, 115].as_slice(), &val);  // "max-sub-compactions"
    let val = Value::Str(fmt_size(c.writable_file_max_buffer_size.0));
    render_pair(out, [119u8, 114, 105, 116, 97, 98, 108, 101, 45, 102, 105, 108, 101, 45, 109, 97, 120, 45, 98, 117, 102, 102, 101, 114, 45, 115, 105, 122, 101].as_slice(), &val);  // "writable-file-max-buffer-size"
    proof {
        reveal(spec_db_part3_doc);
        assert(out@ =~= old(out)@ + spec_db_part3_doc(c@));
    }
}

#[verifier::opaque]
pub open spec fn spec_db_part4_doc(c: DbConfigView) -> Seq<u8> {
    spec_render_line(LineV::Pair(seq![117u8, 115, 101, 45, 100, 105, 114, 101, 99, 116, 45, 105, 111, 45, 102, 111, 114, 45, 102, 108, 117, 115, 104, 45, 97, 110, 100, 45, 99, 111, 109, 112, 97, 99, 116, 105, 111, 110], ValueV::Bool(c.use_direct_io_for_flush_and_compaction)))
        + spec_render_line(LineV::Pair(seq![101u8, 110, 97, 98, 108, 101, 45, 112, 105, 112, 101, 108, 105, 110, 101, 100, 45, 119, 114, 105, 116, 101], ValueV::Bool(c.enable_pipelined_write)))
        + spec_render_line(LineV::Pair(seq![98u8, 97, 99, 107, 117, 112, 45, 100, 105, 114], ValueV::Str(c.backup_dir)))
}

#[verifier::rlimit(100)]
#[verifier::spinoff_prover]
pub fn render_db_part4_section(out: &mut Vec<u8>, c: &DbConfig)
    ensures
        final(out)@ == old(out)@ + spec_db_part4_doc(c@),
{
    let val = Value::Bool(c.use_direct_io_for_flush_and_compaction);
    render_pair(out, [117u8, 115, 101, 45, 100, 105, 114, 101, 99, 116, 45, 105, 111, 45, 102, 111, 114, 45, 102, 108, 117, 115, 104, 45, 97, 110, 100, 45, 99, 111, 109, 112, 97, 99, 116, 105, 111, 110].as_slice(), &val);  // "use-direct-io-for-flush-and-compaction"
    let val = Value::Bool(c.enable_pipelined_write);
    render_pair(out, [101u8, 110, 97, 98, 108, 101, 45, 112, 105, 112, 101, 108, 105, 110, 101, 100, 45, 119, 114, 105, 116, 101].as_slice(), &val);  // "enable-pipelined-write"
    let val = Value::Str(bytes_of(c.backup_dir.as_slice()));
    render_pair(out, [98u8, 97, 99, 107, 117, 112, 45, 100, 105, 114].as_slice(), &val);  // "backup-dir"
    proof {
        reveal(spec_db_part4_doc);
        assert(out@ =~= old(out)@ + spec_db_part4_doc(c@));
    }
}

/// The rendered lines of the whole section.
pub open spec fn spec_db_doc(c: DbConfigView) -> Seq<u8> {
    spec_db_part1_doc(c) + spec_db_part2_doc(c) + spec_db_part3_doc(c) + spec_db_part4_doc(c)
}

pub fn render_db_section(out: &mut Vec<u8>, c: &DbConfig)
    ensures
        final(out)@ == old(out)@ + spec_db_doc(c@),
{
    render_db_part1_section(out, c);
    render_db_part2_section(out, c);
    render_db_part3_section(out, c);
    render_db_part4_section(out, c);
    proof {
        assert(out@ =~= old(out)@ + spec_db_doc(c@));
    }
}

#[verifier::opaque]
pub open spec fn spec_apply_raftdb_part1(c: RaftDbConfigView, k: Seq<u8>, v: ValueV) -> Result<RaftDbConfigView, ParseError> {
    if k == seq![119u8, 97, 108, 45, 114, 101, 99, 111, 118, 101, 114, 121, 45, 109, 111, 100, 101] {  // "wal-recovery-mode"
        match spec_recovery_value(v) {
            None => Err(ParseError::BadValue),
            Some(x) => Ok(RaftDbConfigView { wal_recovery_mode: x, ..c }),
        }
    } else if k == seq![119u8, 97, 108, 45, 100, 105, 114] {  // "wal-dir"
        match spec_bytes_value(v) {
            None => Err(ParseError::BadValue),
            Some(x) => Ok(RaftDbConfigView { wal_dir: x, ..c }),
        }
    } else if k == seq![119u8, 97, 108, 45, 116, 116, 108, 45, 115, 101, 99, 111, 110, 100, 115] {  // "wal-ttl-seconds"
        match spec_u64_value(v) {
            None => Err(ParseError::BadValue),
            Some(x) => Ok(RaftDbConfigView { wal_ttl_seconds: x, ..c }),
        }
    } else if k == seq![119u8, 97, 108, 45, 115, 105, 122, 101, 45, 108, 105, 109, 105, 116] {  // "wal-size-limit"
        match spec_size_value(v) {
            None => Err(ParseError::BadValue),
            Some(x) => Ok(RaftDbConfigView { wal_size_limit: x, ..c }),
        }
    } else {
        spec_apply_raftdb_part2(c, k, v)
    }
}

#[verifier::rlimit(100)]
#[verifier::spinoff_prover]
pub fn apply_raftdb_part1(c: &mut RaftDbConfig, k: &[u8], v: Value) -> (r: Result<(), ParseError>)
    ensures
        ({
            match spec_apply_raftdb_part1(old(c)@, k@, v@) {
                Ok(c2) => r is Ok && final(c)@ == c2,
                Err(e) => r == Err::<(), ParseError>(e) && final(c)@ == old(c)@,
            }
        }),
{
    proof {
        reveal(spec_apply_raftdb_part1);
    }
    if bytes_eq(k, [119u8, 97, 108, 45, 114, 101, 99, 111, 118, 101, 114, 121, 45, 109, 111, 100, 101].as_slice()) {  // "wal-recovery-mode"
        match recovery_value(v) {
            None => Err(ParseError::BadValue),
            Some(x) => {
                c.wal_recovery_mode = x;
                Ok(())
            },
        }
    } else if bytes_eq(k, [119u8, 97, 108, 45, 100, 105, 114].as_slice()) {  // "wal-dir"
        match bytes_value(v) {
            None => Err(ParseError::BadValue),
            Some(x) => {
                c.wal_dir = x;
                Ok(())
            },
        }
    } else if bytes_eq(k, [119u8, 97, 108, 45, 116, 116, 108, 45, 115, 101, 99, 111, 110, 100, 115].as_slice()) {  // "wal-ttl-seconds"
        match u64_value(v) {
            None => Err(ParseError::BadValue),
            Some(x) => {
                c.wal_ttl_seconds = x;
                Ok(())
            },
        }
    } else if bytes_eq(k, [119u8, 97, 108, 45, 115, 105, 122, 101, 45, 108, 105, 109, 105, 116].as_slice()) {  // "wal-size-limit"
        match size_value(v) {
            None => Err(ParseError::BadValue),
            Some(x) => {
                c.wal_size_limit = x;
                Ok(())
            },
        }
    } else {
        apply_raftdb_part2(c, k, v)
    }
}

#[verifier::opaque]
pub open spec fn spec_apply_raftdb_part2(c: RaftDbConfigView, k: Seq<u8>, v: ValueV) -> Result<RaftDbConfigView, ParseError> {
    if k == seq![109u8, 97, 120, 45, 116, 111, 116, 97, 108, 45, 119, 97, 108, 45, 115, 105, 122, 101] {  // "max-total-wal-size"
        match spec_size_value(v) {
            None => Err(ParseError::BadValue),
            Some(x) => Ok(RaftDbConfigView { max_total_wal_size: x, ..c }),
        }
    } else if k == seq![109u8, 97, 120, 45, 109, 97, 110, 105, 102, 101, 115, 116, 45, 102, 105, 108, 101, 45, 115, 105, 122, 101] {  // "max-manifest-file-size"
        match spec_size_value(v) {
            None => Err(ParseError::BadValue),
            Some(x) => Ok(RaftDbConfigView { max_manifest_file_size: x, ..c }),
        }
    } else if k == seq![99u8, 114, 101, 97, 116, 101, 45, 105, 102, 45, 109, 105, 115, 115, 105, 110, 103] {  // "create-if-missing"
        match spec_bool_value(v) {
            None => Err(ParseError::BadValue),
            Some(x) => Ok(RaftDbConfigView { create_if_missing: x, ..c }),
        }
    } else if k == seq![109u8, 97, 120, 45, 111, 112, 101, 110, 45, 102, 105, 108, 101, 115] {  // "max-open-files"
        match spec_i32_value(v) {
            None => Err(ParseError::BadValue),
            Some(x) => Ok(RaftDbConfigView { max_open_files: x, ..c }),
        }
    } else {
        spec_apply_raftdb_part3(c, k, v)
    }
}

#[verifier::rlimit(100)]
#[verifier::spinoff_prover]
pub fn apply_raftdb_part2(c: &mut RaftDbConfig, k: &[u8], v: Value) -> (r: Result<(), ParseError>)
    ensures
        ({
            match spec_apply_raftdb_part2(old(c)@, k@, v@) {
                Ok(c2) => r is Ok && final(c)@ == c2,
                Err(e) => r == Err::<(), ParseError>(e) && final(c)@ == old(c)@,
            }
        }),
{
    proof {
        reveal(spec_apply_raftdb_part2);
    }
    if bytes_eq(k, [109u8, 97, 120, 45, 116, 111, 116, 97, 108, 45, 119, 97, 108, 45, 115, 105, 122, 101].as_slice()) {  // "max-total-wal-size"
        match size_value(v) {
            None => Err(ParseError::BadValue),
            Some(x) => {
                c.max_total_wal_size = x;
                Ok(())
            },
        }
    } else if bytes_eq(k, [109u8, 97, 120, 45, 109, 97, 110, 105, 102, 101, 115, 116, 45, 102, 105, 108, 101, 45, 115, 105, 122, 101].as_slice()) {  // "max-manifest-file-size"
        match size_value(v) {
            None => Err(ParseError::BadValue),
            Some(x) => {
                c.max_manifest_file_size = x;
                Ok(())
            },
        }
    } else if bytes_eq(k, [99u8, 114, 101, 97, 116, 101, 45, 105, 102, 45, 109, 105, 115, 115, 105, 110, 103].as_slice()) {  // "create-if-missing"
        match bool_value(v) {
            None => Err(ParseError::BadValue),
            Some(x) => {
                c.create_if_missing = x;
                Ok(())
            },
        }
    } else if bytes_eq(k, [109u8, 97, 120, 45, 111, 112, 101, 110, 45, 102, 105, 108, 101, 115].as_slice()) {  // "max-open-files"
        match i32_value(v) {
            None => Err(ParseError::BadValue),
            Some(x) => {
                c.max_open_files = x;
                Ok(())
            },
        }
    } else {
        apply_raftdb_part3(c, k, v)
    }
}

#[verifier::opaque]
pub open spec fn spec_apply_raftdb_part3(c: RaftDbConfigView, k: Seq<u8>, v: ValueV) -> Result<RaftDbConfigView, ParseError> {
    if k == seq![101u8, 110, 97, 98, 108, 101, 45, 115, 116, 97, 116, 105, 115, 116, 105, 99, 115] {  // "enable-statistics"
        match spec_bool_value(v) {
            None => Err(ParseError::BadValue),
            Some(x) => Ok(RaftDbConfigView { enable_statistics: x, ..c }),
        }
    } else if k == seq![115u8, 116, 97, 116, 115, 45, 100, 117, 109, 112, 45, 112, 101, 114, 105, 111, 100] {  // "stats-dump-period"
        match spec_dur_value(v) {
            None => Err(ParseError::BadValue),
            Some(x) => Ok(RaftDbConfigView { stats_dump_period: x, ..c }),
        }
    } else if k == seq![99u8, 111, 109, 112, 97, 99, 116, 105, 111, 110, 45, 114, 101, 97, 100, 97, 104, 101, 97, 100, 45, 115, 105, 122, 101] {  // "compaction-readahead-size"
        match spec_size_value(v) {
            None => Err(ParseError::BadValue),
            Some(x) => Ok(RaftDbConfigView { compaction_readahead_size: x, ..c }),
        }
    } else if k == seq![105u8, 110, 102, 111, 45, 108, 111, 103, 45, 109, 97, 120, 45, 115, 105, 122, 101] {  // "info-log-max-size"
        match spec_size_value(v) {
            None => Err(ParseError::BadValue),
            Some(x) => Ok(RaftDbConfigView { info_log_max_size: x, ..c }),
        }
    } else {
        spec_apply_raftdb_part4(c, k, v)
    }
}

#[verifier::rlimit(100)]
#[verifier::spinoff_prover]
pub fn apply_raftdb_part3(c: &mut RaftDbConfig, k: &[u8], v: Value) -> (r: Result<(), ParseError>)
    ensures
        ({
            match spec_apply_raftdb_part3(old(c)@, k@, v@) {
                Ok(c2) => r is Ok && final(c)@ == c2,
                Err(e) => r == Err::<(), ParseError>(e) && final(c)@ == old(c)@,
            }
        }),
{
    proof {
        reveal(spec_apply_raftdb_part3);
    }
    if bytes_eq(k, [101u8, 110, 97, 98, 108, 101, 45, 115, 116, 97, 116, 105, 115, 116, 105, 99, 115].as_slice()) {  // "enable-statistics"
        match bool_value(v) {
            None => Err(ParseError::BadValue),
            Some(x) => {
                c.enable_statistics = x;
                Ok(())
            },
        }
    } else if bytes_eq(k, [115u8, 116, 97, 116, 115, 45, 100, 117, 109, 112, 45, 112, 101, 114, 105, 111, 100].as_slice()) {  // "stats-dump-period"
        match dur_value(v) {
            None => Err(ParseError::BadValue),
            Some(x) => {
                c.stats_dump_period = x;
                Ok(())
            },
        }
    } else if bytes_eq(k, [99u8, 111, 109, 112, 97, 99, 116, 105, 111, 110, 45, 114, 101, 97, 100, 97, 104, 101, 97, 100, 45, 115, 105, 122, 101].as_slice()) {  // "compaction-readahead-size"
        match size_value(v) {
            None => Err(ParseError::BadValue),
            Some(x) => {
                c.compaction_readahead_size = x;
                Ok(())
            },
        }
    } else if bytes_eq(k, [105u8, 110, 102, 111, 45, 108, 111, 103, 45, 109, 97, 120, 45, 115, 105, 122, 101].as_slice()) {  // "info-log-max-size"
        match size_value(v) {
            None => Err(ParseError::BadValue),
            Some(x) => {
                c.info_log_max_size = x;
                Ok(())
            },
        }
    } else {
        apply_raftdb_part4(c, k, v)
    }
}

#[verifier::opaque]
pub open spec fn spec_apply_raftdb_part4(c: RaftDbConfigView, k: Seq<u8>, v: ValueV) -> Result<RaftDbConfigView, ParseError> {
    if k == seq![105u8, 110, 102, 111, 45, 108, 111, 103, 45, 114, 111, 108, 108, 45, 116, 105, 109, 101] {  // "info-log-roll-time"
        match spec_dur_value(v) {
            None => Err(ParseError::BadValue),
            Some(x) => Ok(RaftDbConfigView { info_log_roll_time: x, ..c }),
        }
    } else if k == seq![105u8, 110, 102, 111, 45, 108, 111, 103, 45, 100, 105, 114] {  // "info-log-dir"
        match spec_bytes_value(v) {
            None => Err(ParseError::BadValue),
            Some(x) => Ok(RaftDbConfigView { info_log_dir: x, ..c }),
        }
    } else if k == seq![109u8, 97, 120, 45, 115, 117, 98, 45, 99, 111, 109, 112, 97, 99, 116, 105, 111, 110, 115] {  // "max-sub-compactions"
        match spec_u32_value(v) {
            None => Err(ParseError::BadValue),
            Some(x) => Ok(RaftDbConfigView { max_sub_compactions: x, ..c }),
        }
    } else if k == seq![119u8, 114, 105, 116, 97, 98, 108, 101, 45, 102, 105, 108, 101, 45, 109, 97, 120, 45, 98, 117, 102, 102, 101, 114, 45, 115, 105, 122, 101] {  // "writable-file-max-buffer-size"
        match spec_size_value(v) {
            None => Err(ParseError::BadValue),
            Some(x) => Ok(RaftDbConfigView { writable_file_max_buffer_size: x, ..c }),
        }
    } else {
        spec_apply_raftdb_part5(c, k, v)
    }
}

#[verifier::rlimit(100)]
#[verifier::spinoff_prover]
pub fn apply_raftdb_part4(c: &mut RaftDbConfig, k: &[u8], v: Value) -> (r: Result<(), ParseError>)
    ensures
        ({
            match spec_apply_raftdb_part4(old(c)@, k@, v@) {
                Ok(c2) => r is Ok && final(c)@ == c2,
                Err(e) => r == Err::<(), ParseError>(e) && final(c)@ == old(c)@,
            }
        }),
{
    proof {
        reveal(spec_apply_raftdb_part4);
    }
    if bytes_eq(k, [105u8, 110, 102, 111, 45, 108, 111, 103, 45, 114, 111, 108, 108, 45, 116, 105, 109, 101].as_slice()) {  // "info-log-roll-time"
        match dur_value(v) {
            None => Err(ParseError::BadValue),
            Some(x) => {
                c.info_log_roll_time = x;
                Ok(())
            },
        }
    } else if bytes_eq(k, [105u8, 110, 102, 111, 45, 108, 111, 103, 45, 100, 105, 114].as_slice()) {  // "info-log-dir"
        match bytes_value(v) {
            None => Err(ParseError::BadValue),
            Some(x) => {
                c.info_log_dir = x;
                Ok(())
            },
        }
    } else if bytes_eq(k, [109u8, 97, 120, 45, 115, 117, 98, 45, 99, 111, 109, 112, 97, 99, 116, 105, 111, 110, 115].as_slice()) {  // "max-sub-compactions"
        match u32_value(v) {
            None => Err(ParseError::BadValue),
            Some(x) => {
                c.max_sub_compactions = x;
                Ok(())
            },
        }
    } else if bytes_eq(k, [119u8, 114, 105, 116, 97, 98, 108, 101, 45, 102, 105, 108, 101, 45, 109, 97, 120, 45, 98, 117, 102, 102, 101, 114, 45, 115, 105, 122, 101].as_slice()) {  // "writable-file-max-buffer-size"
        match size_value(v) {
            None => Err(ParseError::BadValue),
            Some(x) => {
                c.writable_file_max_buffer_size = x;
                Ok(())
            },
        }
    } else {
        apply_raftdb_part5(c, k, v)
    }
}

#[verifier::opaque]
pub open spec fn spec_apply_raftdb_part5(c: RaftDbConfigView, k: Seq<u8>, v: ValueV) -> Result<RaftDbConfigView, ParseError> {
    if k == seq![117u8, 115, 101, 45, 100, 105, 114, 101, 99, 116, 45, 105, 111, 45, 102, 111, 114, 45, 102, 108, 117, 115, 104, 45, 97, 110, 100, 45, 99, 111, 109, 112, 97, 99, 116, 105, 111, 110] {  // "use-direct-io-for-flush-and-compaction"
        match spec_bool_value(v) {
            None => Err(ParseError::BadValue),
            Some(x) => Ok(RaftDbConfigView { use_direct_io_for_flush_and_compaction: x, ..c }),
        }
    } else if k == seq![101u8, 110, 97, 98, 108, 101, 45, 112, 105, 112, 101, 108, 105, 110, 101, 100, 45, 119, 114, 105, 116, 101] {  // "enable-pipelined-write"
        match spec_bool_value(v) {
            None => Err(ParseError::BadValue),
            Some(x) => Ok(RaftDbConfigView { enable_pipelined_write: x, ..c }),
        }
    } else if k == seq![97u8, 108, 108, 111, 119, 45, 99, 111, 110, 99, 117, 114, 114, 101, 110, 116, 45, 109, 101, 109, 116, 97, 98, 108, 101, 45, 119, 114, 105, 116, 101] {  // "allow-concurrent-memtable-write"
        match spec_bool_value(v) {
            None => Err(ParseError::BadValue),
            Some(x) => Ok(RaftDbConfigView { allow_concurrent_memtable_write: x, ..c }),
        }
    } else {
        Ok(c)
    }
}

#[verifier::rlimit(100)]
#[verifier::spinoff_prover]
pub fn apply_raftdb_part5(c: &mut RaftDbConfig, k: &[u8], v: Value) -> (r: Result<(), ParseError>)
    ensures
        ({
            match spec_apply_raftdb_part5(old(c)@, k@, v@) {
                Ok(c2) => r is Ok && final(c)@ == c2,
                Err(e) => r == Err::<(), ParseError>(e) && final(c)@ == old(c)@,
            }
        }),
{
    proof {
        reveal(spec_apply_raftdb_part5);
    }
    if bytes_eq(k, [117u8, 115, 101, 45, 100, 105, 114, 101, 99, 116, 45, 105, 111, 45, 102, 111, 114, 45, 102, 108, 117, 115, 104, 45, 97, 110, 100, 45, 99, 111, 109, 112, 97, 99, 116, 105, 111, 110].as_slice()) {  // "use-direct-io-for-flush-and-compaction"
        match bool_value(v) {
            None => Err(ParseError::BadValue),
            Some(x) => {
                c.use_direct_io_for_flush_and_compaction = x;
                Ok(())
            },
        }
    } else if bytes_eq(k, [101u8, 110, 97, 98, 108, 101, 45, 112, 105, 112, 101, 108, 105, 110, 101, 100, 45, 119, 114, 105, 116, 101].as_slice()) {  // "enable-pipelined-write"
        match bool_value(v) {
            None => Err(ParseError::BadValue),
            Some(x) => {
                c.enable_pipelined_write = x;
                Ok(())
            },
        }
    } else if bytes_eq(k, [97u8, 108, 108, 111, 119, 45, 99, 111, 110, 99, 117, 114, 114, 101, 110, 116, 45, 109, 101, 109, 116, 97, 98, 108, 101, 45, 119, 114, 105, 116, 101].as_slice()) {  // "allow-concurrent-memtable-write"
        match bool_value(v) {
            None => Err(ParseError::BadValue),
            Some(x) => {
                c.allow_concurrent_memtable_write = x;
                Ok(())
            },
        }
    } else {
        Ok(())
    }
}

#[verifier::opaque]
pub open spec fn spec_raftdb_part1_doc(c: RaftDbConfigView) -> Seq<u8> {
    spec_render_line(LineV::Pair(seq![119u8, 97, 108, 45, 114, 101, 99, 111, 118, 101, 114, 121, 45, 109, 111, 100, 101], ValueV::Int(spec_recovery_mode_wire(c.wal_recovery_mode))))
        + spec_render_line(LineV::Pair(seq![119u8, 97, 108, 45, 100, 105, 114], ValueV::Str(c.wal_dir)))
        + spec_render_line(LineV::Pair(seq![119u8, 97, 108, 45, 116, 116, 108, 45, 115, 101, 99, 111, 110, 100, 115], ValueV::Int(c.wal_ttl_seconds as i64)))
        + spec_render_line(LineV::Pair(seq![119u8, 97, 108, 45, 115, 105, 122, 101, 45, 108, 105, 109, 105, 116], ValueV::Str(spec_fmt_size(c.wal_size_limit.0))))
        + spec_render_line(LineV::Pair(seq![109u8, 97, 120, 45, 116, 111, 116, 97, 108, 45, 119, 97, 108, 45, 115, 105, 122, 101], ValueV::Str(spec_fmt_size(c.max_total_wal_size.0))))
        + spec_render_line(LineV::Pair(seq![109u8, 97, 120, 45, 109, 97, 110, 105, 102, 101, 115, 116, 45, 102, 105, 108, 101, 45, 115, 105, 122, 101], ValueV::Str(spec_fmt_size(c.max_manifest_file_size.0))))
}

#[verifier::rlimit(100)]
#[verifier::spinoff_prover]
pub fn render_raftdb_part1_section(out: &mut Vec<u8>, c: &RaftDbConfig)
    ensures
        final(out)@ == old(out)@ + spec_raftdb_part1_doc(c@),
{
    let val = Value::Int(recovery_mode_wire(c.wal_recovery_mode));
    render_pair(out, [119u8, 97, 108, 45, 114, 101, 99, 111, 118, 101, 114, 121, 45, 109, 111, 100, 101].as_slice(), &val);  // "wal-recovery-mode"
    let val = Value::Str(bytes_of(c.wal_dir.as_slice()));
    render_pair(out, [119u8, 97, 108, 45, 100, 105, 114].as_slice(), &val);  // "wal-dir"
    let val = Value::Int(c.wal_ttl_seconds as i64);
    render_pair(out, [119u8, 97, 108, 45, 116, 116, 108, 45, 115, 101, 99, 111, 110, 100, 115].as_slice(), &val);  // "wal-ttl-seconds"
    let val = Value::Str(fmt_size(c.wal_size_limit.0));
    render_pair(out, [119u8, 97, 108, 45, 115, 105, 122, 101, 45, 108, 105, 109, 105, 116].as_slice(), &val);  // "wal-size-limit"
    let val = Value::Str(fmt_size(c.max_total_wal_size.0));
    render_pair(out, [109u8, 97, 120, 45, 116, 111, 116, 97, 108, 45, 119, 97, 108, 45, 115, 105, 122, 101].as_slice(), &val);  // "max-total-wal-size"
    let val = Value::Str(fmt_size(c.max_manifest_file_size.0));
    render_pair(out, [109u8, 97, 120, 45, 109, 97, 110, 105, 102, 101, 115, 116, 45, 102, 105, 108, 101, 45, 115, 105, 122, 101].as_slice(), &val);  // "max-manifest-file-size"
    proof {
        reveal(spec_raftdb_part1_doc);
        assert(out@ =~= old(out)@ + spec_raftdb_part1_doc(c@));
    }
}

#[verifier::opaque]
pub open spec fn spec_raftdb_part2_doc(c: RaftDbConfigView) -> Seq<u8> {
    spec_render_line(LineV::Pair(seq![99u8, 114, 101, 97, 116, 101, 45, 105, 102, 45, 109, 105, 115, 115, 105, 110, 103], ValueV::Bool(c.create_if_missing)))
        + spec_render_line(LineV::Pair(seq![109u8, 97, 120, 45, 111, 112, 101, 110, 45, 102, 105, 108, 101, 115], ValueV::Int(c.max_open_files as i64)))
        + spec_render_line(LineV::Pair(seq![101u8, 110, 97, 98, 108, 101, 45, 115, 116, 97, 116, 105, 115, 116, 105, 99, 115], ValueV::Bool(c.enable_statistics)))
        + spec_render_line(LineV::Pair(seq![115u8, 116, 97, 116, 115, 45, 100, 117, 109, 112, 45, 112, 101, 114, 105, 111, 100], ValueV::Str(spec_fmt_dur(c.stats_dump_period.0))))
        + spec_render_line(LineV::Pair(seq![99u8, 111, 109, 112, 97, 99, 116, 105, 111, 110, 45, 114, 101, 97, 100, 97, 104, 101, 97, 100, 45, 115, 105, 122, 101], ValueV::Str(spec_fmt_size(c.compaction_readahead_size.0))))
        + spec_render_line(LineV::Pair(seq![105u8, 110, 102, 111, 45, 108, 111, 103, 45, 109, 97, 120, 45, 115, 105, 122, 101], ValueV::Str(spec_fmt_size(c.info_log_max_size.0))))
}

#[verifier::rlimit(100)]
#[verifier::spinoff_prover]
pub fn render_raftdb_part2_section(out: &mut Vec<u8>, c: &RaftDbConfig)
    ensures
        final(out)@ == old(out)@ + spec_raftdb_part2_doc(c@),
{
    let val = Value::Bool(c.create_if_missing);
    render_pair(out, [99u8, 114, 101, 97, 116, 101, 45, 105, 102, 45, 109, 105, 115, 115, 105, 110, 103].as_slice(), &val);  // "create-if-missing"
    let val = Value::Int(c.max_open_files as i64);
    render_pair(out, [109u8, 97, 120, 45, 111, 112, 101, 110, 45, 102, 105, 108, 101, 115].as_slice(), &val);  // "max-open-files"
    let val = Value::Bool(c.enable_statistics);
    render_pair(out, [101u8, 110, 97, 98, 108, 101, 45, 115, 116, 97, 116, 105, 115, 116, 105, 99, 115].as_slice(), &val);  // "enable-statistics"
    let val = Value::Str(fmt_dur(c.stats_dump_period.0));
    render_pair(out, [115u8, 116, 97, 116, 115, 45, 100, 117, 109, 112, 45, 112, 101, 114, 105, 111, 100].as_slice(), &val);  // "stats-dump-period"
    let val = Value::Str(fmt_size(c.compaction_readahead_size.0));
    render_pair(out, [99u8, 111, 109, 112, 97, 99, 116, 105, 111, 110, 45, 114, 101, 97, 100, 97, 104, 101, 97, 100, 45, 115, 105, 122, 101].as_slice(), &val);  // "compaction-readahead-size"
    let val = Value::Str(fmt_size(c.info_log_max_size.0));
    render_pair(out, [105u8, 110, 102, 111, 45, 108, 111, 103, 45, 109, 97, 120, 45, 115, 105, 122, 101].as_slice(), &val);  // "info-log-max-size"
    proof {
        reveal(spec_raftdb_part2_doc);
        assert(out@ =~= old(out)@ + spec_raftdb_part2_doc(c@));
    }
}

#[verifier::opaque]
pub open spec fn spec_raftdb_part3_doc(c: RaftDbConfigView) -> Seq<u8> {
    spec_render_line(LineV::Pair(seq![105u8, 110, 102, 111, 45, 108, 111, 103, 45, 114, 111, 108, 108, 45, 116, 105, 109, 101], ValueV::Str(spec_fmt_dur(c.info_log_roll_time.0))))
        + spec_render_line(LineV::Pair(seq![105u8, 110, 102, 111, 45, 108, 111, 103, 45, 100, 105, 114], ValueV::Str(c.info_log_dir)))
        + spec_render_line(LineV::Pair(seq![109u8, 97, 120, 45, 115, 117, 98, 45, 99, 111, 109, 112, 97, 99, 116, 105, 111, 110, 115], ValueV::Int(c.max_sub_compactions as i64)))
        + spec_render_line(LineV::Pair(seq![119u8, 114, 105, 116, 97, 98, 108, 101, 45, 102, 105, 108, 101, 45, 109, 97, 120, 45, 98, 117, 102, 102, 101, 114, 45, 115, 105, 122, 101], ValueV::Str(spec_fmt_size(c.writable_file_max_buffer_size.0))))
        + spec_render_line(LineV::Pair(seq![117u8, 115, 101, 45, 100, 105, 114, 101, 99, 116, 45, 105, 111, 45, 102, 111, 114, 45, 102, 108, 117, 115, 104, 45, 97, 110, 100, 45, 99, 111, 109, 112, 97, 99, 116, 105, 111, 110], ValueV::Bool(c.use_direct_io_for_flush_and_compaction)))
        + spec_render_line(LineV::Pair(seq![101u8, 110, 97, 98, 108, 101, 45, 112, 105, 112, 101, 108, 105, 110, 101, 100, 45, 119, 114, 105, 116, 101], ValueV::Bool(c.enable_pipelined_write)))
}

#[verifier::rlimit(100)]
#[verifier::spinoff_prover]
pub fn render_raftdb_part3_section(out: &mut Vec<u8>, c: &RaftDbConfig)
    ensures
        final(out)@ == old(out)@ + spec_raftdb_part3_doc(c@),
{
    let val = Value::Str(fmt_dur(c.info_log_roll_time.0));
    render_pair(out, [105u8, 110, 102, 111, 45, 108, 111, 103, 45, 114, 111, 108, 108, 45, 116, 105, 109, 101].as_slice(), &val);  // "info-log-roll-time"
    let val = Value::Str(bytes_of(c.info_log_dir.as_slice()));
    render_pair(out, [105u8, 110, 102, 111, 45, 108, 111, 103, 45, 100, 105, 114].as_slice(), &val);  // "info-log-dir"
    let val = Value::Int(c.max_sub_compactions as i64);
    render_pair(out, [109u8, 97, 120, 45, 115, 117, 98, 45, 99, 111, 109, 112, 97, 99, 116, 105, 111, 110, 115].as_slice(), &val);  // "max-sub-compactions"
    let val = Value::Str(fmt_size(c.writable_file_max_buffer_size.0));
    render_pair(out, [119u8, 114, 105, 116, 97, 98, 108, 101, 45, 102, 105, 108, 101, 45, 109, 97, 120, 45, 98, 117, 102, 102, 101, 114, 45, 115, 105, 122, 101].as_slice(), &val);  // "writable-file-max-buffer-size"
    let val = Value::Bool(c.use_direct_io_for_flush_and_compaction);
    render_pair(out, [117u8, 115, 101, 45, 100, 105, 114, 101, 99, 116, 45, 105, 111, 45, 102, 111, 114, 45, 102, 108, 117, 115, 104, 45, 97, 110, 100, 45, 99, 111, 109, 112, 97, 99, 116, 105, 111, 110].as_slice(), &val);  // "use-direct-io-for-flush-and-compaction"
    let val = Value::Bool(c.enable_pipelined_write);
    render_pair(out, [101u8, 110, 97, 98, 108, 101, 45, 112, 105, 112, 101, 108, 105, 110, 101, 100, 45, 119, 114, 105, 116, 101].as_slice(), &val);  // "enable-pipelined-write"
    proof {
        reveal(spec_raftdb_part3_doc);
        assert(out@ =~= old(out)@ + spec_raftdb_part3_doc(c@));
    }
}

#[verifier::opaque]
pub open spec fn spec_raftdb_part4_doc(c: RaftDbConfigView) -> Seq<u8> {
    spec_render_line(LineV::Pair(seq![97u8, 108, 108, 111, 119, 45, 99, 111, 110, 99, 117, 114, 114, 101, 110, 116, 45, 109, 101, 109, 116, 97, 98, 108, 101, 45, 119, 114, 105, 116, 101], ValueV::Bool(c.allow_concurrent_memtable_write)))
}

#[verifier::rlimit(100)]
#[verifier::spinoff_prover]
pub fn render_raftdb_part4_section(out: &mut Vec<u8>, c: &RaftDbConfig)
    ensures
        final(out)@ == old(out)@ + spec_raftdb_part4_doc(c@),
{
    let val = Value::Bool(c.allow_concurrent_memtable_write);
    render_pair(out, [97u8, 108, 108, 111, 119, 45, 99, 111, 110, 99, 117, 114, 114, 101, 110, 116, 45, 109, 101, 109, 116, 97, 98, 108, 101, 45, 119, 114, 105, 116, 101].as_slice(), &val);  // "allow-concurrent-memtable-write"
    proof {
        reveal(spec_raftdb_part4_doc);
        assert(out@ =~= old(out)@ + spec_raftdb_part4_doc(c@));
    }
}

/// The rendered lines of the whole section.
pub open spec fn spec_raftdb_doc(c: RaftDbConfigView) -> Seq<u8> {
    spec_raftdb_part1_doc(c) + spec_raftdb_part2_doc(c) + spec_raftdb_part3_doc(c) + spec_raftdb_part4_doc(c)
}

pub fn render_raftdb_section(out: &mut Vec<u8>, c: &RaftDbConfig)
    ensures
        final(out)@ == old(out)@ + spec_raftdb_doc(c@),
{
    render_raftdb_part1_section(out, c);
    render_raftdb_part2_section(out, c);
    render_raftdb_part3_section(out, c);
    render_raftdb_part4_section(out, c);
    proof {
        assert(out@ =~= old(out)@ + spec_raftdb_doc(c@));
    }
}

#[verifier::opaque]
pub open spec fn spec_apply_cf_part1(c: CfConfigView, k: Seq<u8>, v: ValueV) -> Result<CfConfigView, ParseError> {
    if k == seq![98u8, 108, 111, 99, 107, 45, 115, 105, 122, 101] {  // "block-size"
        match spec_size_value(v) {
            None => Err(ParseError::BadValue),
            Some(x) => Ok(CfConfigView { block_size: x, ..c }),
        }
    } else if k == seq![98u8, 108, 111, 99, 107, 45, 99, 97, 99, 104, 101, 45, 115, 105, 122, 101] {  // "block-cache-size"
        match spec_size_value(v) {
            None => Err(ParseError::BadValue),
            Some(x) => Ok(CfConfigView { block_cache_size: x, ..c }),
        }
    } else if k == seq![99u8, 97, 99, 104, 101, 45, 105, 110, 100, 101, 120, 45, 97, 110, 100, 45, 102, 105, 108, 116, 101, 114, 45, 98, 108, 111, 99, 107, 115] {  // "cache-index-and-filter-blocks"
        match spec_bool_value(v) {
            None => Err(ParseError::BadValue),
            Some(x) => Ok(CfConfigView { cache_index_and_filter_blocks: x, ..c }),
        }
    } else if k == seq![117u8, 115, 101, 45, 98, 108, 111, 111, 109, 45, 102, 105, 108, 116, 101, 114] {  // "use-bloom-filter"
        match spec_bool_value(v) {
            None => Err(ParseError::BadValue),
            Some(x) => Ok(CfConfigView { use_bloom_filter: x, ..c }),
        }
    } else {
        spec_apply_cf_part2(c, k, v)
    }
}

#[verifier::rlimit(100)]
#[verifier::spinoff_prover]
pub fn apply_cf_part1(c: &mut CfConfig, k: &[u8], v: Value) -> (r: Result<(), ParseError>)
    ensures
        ({
            match spec_apply_cf_part1(old(c)@, k@, v@) {
                Ok(c2) => r is Ok && final(c)@ == c2,
                Err(e) => r == Err::<(), ParseError>(e) && final(c)@ == old(c)@,
            }
        }),
{
    proof {
        reveal(spec_apply_cf_part1);
    }
    if bytes_eq(k, [98u8, 108, 111, 99, 107, 45, 115, 105, 122, 101].as_slice()) {  // "block-size"
        match size_value(v) {
            None => Err(ParseError::BadValue),
            Some(x) => {
                c.block_size = x;
                Ok(())
            },
        }
    } else if bytes_eq(k, [98u8, 108, 111, 99, 107, 45, 99, 97, 99, 104, 101, 45, 115, 105, 122, 101].as_slice()) {  // "block-cache-size"
        match size_value(v) {
            None => Err(ParseError::BadValue),
            Some(x) => {
                c.block_cache_size = x;
                Ok(())
            },
        }
    } else if bytes_eq(k, [99u8, 97, 99, 104, 101, 45, 105, 110, 100, 101, 120, 45, 97, 110, 100, 45, 102, 105, 108, 116, 101, 114, 45, 98, 108, 111, 99, 107, 115].as_slice()) {  // "cache-index-and-filter-blocks"
        match bool_value(v) {
            None => Err(ParseError::BadValue),
            Some(x) => {
                c.cache_index_and_filter_blocks = x;
                Ok(())
            },
        }
    } else if bytes_eq(k, [117u8, 115, 101, 45, 98, 108, 111, 111, 109, 45, 102, 105, 108, 116, 101, 114].as_slice()) {  // "use-bloom-filter"
        match bool_value(v) {
            None => Err(ParseError::BadValue),
            Some(x) => {
                c.use_bloom_filter = x;
                Ok(())
            },
        }
    } else {
        apply_cf_part2(c, k, v)
    }
}

#[verifier::opaque]
pub open spec fn spec_apply_cf_part2(c: CfConfigView, k: Seq<u8>, v: ValueV) -> Result<CfConfigView, ParseError> {
    if k == seq![119u8, 104, 111, 108, 101, 45, 107, 101, 121, 45, 102, 105, 108, 116, 101, 114, 105, 110, 103] {  // "whole-key-filtering"
        match spec_bool_value(v) {
            None => Err(ParseError::BadValue),
            Some(x) => Ok(CfConfigView { whole_key_filtering: x, ..c }),
        }
    } else if k == seq![98u8, 108, 111, 111, 109, 45, 102, 105, 108, 116, 101, 114, 45, 98, 105, 116, 115, 45, 112, 101, 114, 45, 107, 101, 121] {  // "bloom-filter-bits-per-key"
        match spec_i32_value(v) {
            None => Err(ParseError::BadValue),
            Some(x) => Ok(CfConfigView { bloom_filter_bits_per_key: x, ..c }),
        }
    } else if k == seq![98u8, 108, 111, 99, 107, 45, 98, 97, 115, 101, 100, 45, 98, 108, 111, 111, 109, 45, 102, 105, 108, 116, 101, 114] {  // "block-based-bloom-filter"
        match spec_bool_value(v) {
            None => Err(ParseError::BadValue),
            Some(x) => Ok(CfConfigView { block_based_bloom_filter: x, ..c }),
        }
    } else if k == seq![99u8, 111, 109, 112, 114, 101, 115, 115, 105, 111, 110, 45, 112, 101, 114, 45, 108, 101, 118, 101, 108] {  // "compression-per-level"
        match spec_compression_value(v) {
            None => Err(ParseError::BadValue),
            Some(x) => Ok(CfConfigView { compression_per_level: x, ..c }),
        }
    } else {
        spec_apply_cf_part3(c, k, v)
    }
}

#[verifier::rlimit(100)]
#[verifier::spinoff_prover]
pub fn apply_cf_part2(c: &mut CfConfig, k: &[u8], v: Value) -> (r: Result<(), ParseError>)
    ensures
        ({
            match spec_apply_cf_part2(old(c)@, k@, v@) {
                Ok(c2) => r is Ok && final(c)@ == c2,
                Err(e) => r == Err::<(), ParseError>(e) && final(c)@ == old(c)@,
            }
        }),
{
    proof {
        reveal(spec_apply_cf_part2);
    }
    if bytes_eq(k, [119u8, 104, 111, 108, 101, 45, 107, 101, 121, 45, 102, 105, 108, 116, 101, 114, 105, 110, 103].as_slice()) {  // "whole-key-filtering"
        match bool_value(v) {
            None => Err(ParseError::BadValue),
            Some(x) => {
                c.whole_key_filtering = x;
                Ok(())
            },
        }
    } else if bytes_eq(k, [98u8, 108, 111, 111, 109, 45, 102, 105, 108, 116, 101, 114, 45, 98, 105, 116, 115, 45, 112, 101, 114, 45, 107, 101, 121].as_slice()) {  // "bloom-filter-bits-per-key"
        match i32_value(v) {
            None => Err(ParseError::BadValue),
            Some(x) => {
                c.bloom_filter_bits_per_key = x;
                Ok(())
            },
        }
    } else if bytes_eq(k, [98u8, 108, 111, 99, 107, 45, 98, 97, 115, 101, 100, 45, 98, 108, 111, 111, 109, 45, 102, 105, 108, 116, 101, 114].as_slice()) {  // "block-based-bloom-filter"
        match bool_value(v) {
            None => Err(ParseError::BadValue),
            Some(x) => {
                c.block_based_bloom_filter = x;
                Ok(())
            },
        }
    } else if bytes_eq(k, [99u8, 111, 109, 112, 114, 101, 115, 115, 105, 111, 110, 45, 112, 101, 114, 45, 108, 101, 118, 101, 108].as_slice()) {  // "compression-per-level"
        match compression_value(v) {
            None => Err(ParseError::BadValue),
            Some(x) => {
                c.compression_per_level = x;
                Ok(())
            },
        }
    } else {
        apply_cf_part3(c, k, v)
    }
}

#[verifier::opaque]
pub open spec fn spec_apply_cf_part3(c: CfConfigView, k: Seq<u8>, v: ValueV) -> Result<CfConfigView, ParseError> {
    if k == seq![119u8, 114, 105, 116, 101, 45, 98, 117, 102, 102, 101, 114, 45, 115, 105, 122, 101] {  // "write-buffer-size"
        match spec_size_value(v) {
            None => Err(ParseError::BadValue),
            Some(x) => Ok(CfConfigView { write_buffer_size: x, ..c }),
        }
    } else if k == seq![109u8, 97, 120, 45, 119, 114, 105, 116, 101, 45, 98, 117, 102, 102, 101, 114, 45, 110, 117, 109, 98, 101, 114] {  // "max-write-buffer-number"
        match spec_i32_value(v) {
            None => Err(ParseError::BadValue),
            Some(x) => Ok(CfConfigView { max_write_buffer_number: x, ..c }),
        }
    } else if k == seq![109u8, 105, 110, 45, 119, 114, 105, 116, 101, 45, 98, 117, 102, 102, 101, 114, 45, 110, 117, 109, 98, 101, 114, 45, 116, 111, 45, 109, 101, 114, 103, 101] {  // "min-write-buffer-number-to-merge"
        match spec_i32_value(v) {
            None => Err(ParseError::BadValue),
            Some(x) => Ok(CfConfigView { min_write_buffer_number_to_merge: x, ..c }),
        }
    } else if k == seq![109u8, 97, 120, 45, 98, 121, 116, 101, 115, 45, 102, 111, 114, 45, 108, 101, 118, 101, 108, 45, 98, 97, 115, 101] {  // "max-bytes-for-level-base"
        match spec_size_value(v) {
            None => Err(ParseError::BadValue),
            Some(x) => Ok(CfConfigView { max_bytes_for_level_base: x, ..c }),
        }
    } else {
        spec_apply_cf_part4(c, k, v)
    }
}

#[verifier::rlimit(100)]
#[verifier::spinoff_prover]
pub fn apply_cf_part3(c: &mut CfConfig, k: &[u8], v: Value) -> (r: Result<(), ParseError>)
    ensures
        ({
            match spec_apply_cf_part3(old(c)@, k@, v@) {
                Ok(c2) => r is Ok && final(c)@ == c2,
                Err(e) => r == Err::<(), ParseError>(e) && final(c)@ == old(c)@,
            }
        }),
{
    proof {
        reveal(spec_apply_cf_part3);
    }
    if bytes_eq(k, [119u8, 114, 105, 116, 101, 45, 98, 117, 102, 102, 101, 114, 45, 115, 105, 122, 101].as_slice()) {  // "write-buffer-size"
        match size_value(v) {
            None => Err(ParseError::BadValue),
            Some(x) => {
                c.write_buffer_size = x;
                Ok(())
            },
        }
    } else if bytes_eq(k, [109u8, 97, 120, 45, 119, 114, 105, 116, 101, 45, 98, 117, 102, 102, 101, 114, 45, 110, 117, 109, 98, 101, 114].as_slice()) {  // "max-write-buffer-number"
        match i32_value(v) {
            None => Err(ParseError::BadValue),
            Some(x) => {
                c.max_write_buffer_number = x;
                Ok(())
            },
        }
    } else if bytes_eq(k, [109u8, 105, 110, 45, 119, 114, 105, 116, 101, 45, 98, 117, 102, 102, 101, 114, 45, 110, 117, 109, 98, 101, 114, 45, 116, 111, 45, 109, 101, 114, 103, 101].as_slice()) {  // "min-write-buffer-number-to-merge"
        match i32_value(v) {
            None => Err(ParseError::BadValue),
            Some(x) => {
                c.min_write_buffer_number_to_merge = x;
                Ok(())
            },
        }
    } else if bytes_eq(k, [109u8, 97, 120, 45, 98, 121, 116, 101, 115, 45, 102, 111, 114, 45, 108, 101, 118, 101, 108, 45, 98, 97, 115, 101].as_slice()) {  // "max-bytes-for-level-base"
        match size_value(v) {
            None => Err(ParseError::BadValue),
            Some(x) => {
                c.max_bytes_for_level_base = x;
                Ok(())
            },
        }
    } else {
        apply_cf_part4(c, k, v)
    }
}

#[verifier::opaque]
pub open spec fn spec_apply_cf_part4(c: CfConfigView, k: Seq<u8>, v: ValueV) -> Result<CfConfigView, ParseError> {
    if k == seq![116u8, 97, 114, 103, 101, 116, 45, 102, 105, 108, 101, 45, 115, 105, 122, 101, 45, 98, 97, 115, 101] {  // "target-file-size-base"
        match spec_size_value(v) {
            None => Err(ParseError::BadValue),
            Some(x) => Ok(CfConfigView { target_file_size_base: x, ..c }),
        }
    } else if k == seq![108u8, 101, 118, 101, 108, 48, 45, 102, 105, 108, 101, 45, 110, 117, 109, 45, 99, 111, 109, 112, 97, 99, 116, 105, 111, 110, 45, 116, 114, 105, 103, 103, 101, 114] {  // "level0-file-num-compaction-trigger"
        match spec_i32_value(v) {
            None => Err(ParseError::BadValue),
            Some(x) => Ok(CfConfigView { level0_file_num_compaction_trigger: x, ..c }),
        }
    } else if k == seq![108u8, 101, 118, 101, 108, 48, 45, 115, 108, 111, 119, 100, 111, 119, 110, 45, 119, 114, 105, 116, 101, 115, 45, 116, 114, 105, 103, 103, 101, 114] {  // "level0-slowdown-writes-trigger"
        match spec_i32_value(v) {
            None => Err(ParseError::BadValue),
            Some(x) => Ok(CfConfigView { level0_slowdown_writes_trigger: x, ..c }),
        }
    } else if k == seq![108u8, 101, 118, 101, 108, 48, 45, 115, 116, 111, 112, 45, 119, 114, 105, 116, 101, 115, 45, 116, 114, 105, 103, 103, 101, 114] {  // "level0-stop-writes-trigger"
        match spec_i32_value(v) {
            None => Err(ParseError::BadValue),
            Some(x) => Ok(CfConfigView { level0_stop_writes_trigger: x, ..c }),
        }
    } else {
        spec_apply_cf_part5(c, k, v)
    }
}

#[verifier::rlimit(100)]
#[verifier::spinoff_prover]
pub fn apply_cf_part4(c: &mut CfConfig, k: &[u8], v: Value) -> (r: Result<(), ParseError>)
    ensures
        ({
            match spec_apply_cf_part4(old(c)@, k@, v@) {
                Ok(c2) => r is Ok && final(c)@ == c2,
                Err(e) => r == Err::<(), ParseError>(e) && final(c)@ == old(c)@,
            }
        }),
{
    proof {
        reveal(spec_apply_cf_part4);
    }
    if bytes_eq(k, [116u8, 97, 114, 103, 101, 116, 45, 102, 105, 108, 101, 45, 115, 105, 122, 101, 45, 98, 97, 115, 101].as_slice()) {  // "target-file-size-base"
        match size_value(v) {
            None => Err(ParseError::BadValue),
            Some(x) => {
                c.target_file_size_base = x;
                Ok(())
            },
        }
    } else if bytes_eq(k, [108u8, 101, 118, 101, 108, 48, 45, 102, 105, 108, 101, 45, 110, 117, 109, 45, 99, 111, 109, 112, 97, 99, 116, 105, 111, 110, 45, 116, 114, 105, 103, 103, 101, 114].as_slice()) {  // "level0-file-num-compaction-trigger"
        match i32_value(v) {
            None => Err(ParseError::BadValue),
            Some(x) => {
                c.level0_file_num_compaction_trigger = x;
                Ok(())
            },
        }
    } else if bytes_eq(k, [108u8, 101, 118, 101, 108, 48, 45, 115, 108, 111, 119, 100, 111, 119, 110, 45, 119, 114, 105, 116, 101, 115, 45, 116, 114, 105, 103, 103, 101, 114].as_slice()) {  // "level0-slowdown-writes-trigger"
        match i32_value(v) {
            None => Err(ParseError::BadValue),
            Some(x) => {
                c.level0_slowdown_writes_trigger = x;
                Ok(())
            },
        }
    } else if bytes_eq(k, [108u8, 101, 118, 101, 108, 48, 45, 115, 116, 111, 112, 45, 119, 114, 105, 116, 101, 115, 45, 116, 114, 105, 103, 103, 101, 114].as_slice()) {  // "level0-stop-writes-trigger"
        match i32_value(v) {
            None => Err(ParseError::BadValue),
            Some(x) => {
                c.level0_stop_writes_trigger = x;
                Ok(())
            },
        }
    } else {
        apply_cf_part5(c, k, v)
    }
}

#[verifier::opaque]
pub open spec fn spec_apply_cf_part5(c: CfConfigView, k: Seq<u8>, v: ValueV) -> Result<CfConfigView, ParseError> {
    if k == seq![109u8, 97, 120, 45, 99, 111, 109, 112, 97, 99, 116, 105, 111, 110, 45, 98, 121, 116, 101, 115] {  // "max-compaction-bytes"
        match spec_size_value(v) {
            None => Err(ParseError::BadValue),
            Some(x) => Ok(CfConfigView { max_compaction_bytes: x, ..c }),
        }
    } else if k == seq![99u8, 111, 109, 112, 97, 99, 116, 105, 111, 110, 45, 112, 114, 105] {  // "compaction-pri"
        match spec_pri_value(v) {
            None => Err(ParseError::BadValue),
            Some(x) => Ok(CfConfigView { compaction_pri: x, ..c }),
        }
    } else {
        Ok(c)
    }
}

#[verifier::rlimit(100)]
#[verifier::spinoff_prover]
pub fn apply_cf_part5(c: &mut CfConfig, k: &[u8], v: Value) -> (r: Result<(), ParseError>)
    ensures
        ({
            match spec_apply_cf_part5(old(c)@, k@, v@) {
                Ok(c2) => r is Ok && final(c)@ == c2,
                Err(e) => r == Err::<(), ParseError>(e) && final(c)@ == old(c)@,
            }
        }),
{
    proof {
        reveal(spec_apply_cf_part5);
    }
    if bytes_eq(k, [109u8, 97, 120, 45, 99, 111, 109, 112, 97, 99, 116, 105, 111, 110, 45, 98, 121, 116, 101, 115].as_slice()) {  // "max-compaction-bytes"
        match size_value(v) {
            None => Err(ParseError::BadValue),
            Some(x) => {
                c.max_compaction_bytes = x;
                Ok(())
            },
        }
    } else if bytes_eq(k, [99u8, 111, 109, 112, 97, 99, 116, 105, 111, 110, 45, 112, 114, 105].as_slice()) {  // "compaction-pri"
        match pri_value(v) {
            None => Err(ParseError::BadValue),
            Some(x) => {
                c.compaction_pri = x;
                Ok(())
            },
        }
    } else {
        Ok(())
    }
}

#[verifier::opaque]
pub open spec fn spec_cf_part1_doc(c: CfConfigView) -> Seq<u8> {
    spec_render_line(LineV::Pair(seq![98u8, 108, 111, 99, 107, 45, 115, 105, 122, 101], ValueV::Str(spec_fmt_size(c.block_size.0))))
        + spec_render_line(LineV::Pair(seq![98u8, 108, 111, 99, 107, 45, 99, 97, 99, 104, 101, 45, 115, 105, 122, 101], ValueV::Str(spec_fmt_size(c.block_cache_size.0))))
        + spec_render_line(LineV::Pair(seq![99u8, 97, 99, 104, 101, 45, 105, 110, 100, 101, 120, 45, 97, 110, 100, 45, 102, 105, 108, 116, 101, 114, 45, 98, 108, 111, 99, 107, 115], ValueV::Bool(c.cache_index_and_filter_blocks)))
        + spec_render_line(LineV::Pair(seq![117u8, 115, 101, 45, 98, 108, 111, 111, 109, 45, 102, 105, 108, 116, 101, 114], ValueV::Bool(c.use_bloom_filter)))
        + spec_render_line(LineV::Pair(seq![119u8, 104, 111, 108, 101, 45, 107, 101, 121, 45, 102, 105, 108, 116, 101, 114, 105, 110, 103], ValueV::Bool(c.whole_key_filtering)))
        + spec_render_line(LineV::Pair(seq![98u8, 108, 111, 111, 109, 45, 102, 105, 108, 116, 101, 114, 45, 98, 105, 116, 115, 45, 112, 101, 114, 45, 107, 101, 121], ValueV::Int(c.bloom_filter_bits_per_key as i64)))
}

#[verifier::rlimit(100)]
#[verifier::spinoff_prover]
pub fn render_cf_part1_section(out: &mut Vec<u8>, c: &CfConfig)
    ensures
        final(out)@ == old(out)@ + spec_cf_part1_doc(c@),
{
    let val = Value::Str(fmt_size(c.block_size.0));
    render_pair(out, [98u8, 108, 111, 99, 107, 45, 115, 105, 122, 101].as_slice(), &val);  // "block-size"
    let val = Value::Str(fmt_size(c.block_cache_size.0));
    render_pair(out, [98u8, 108, 111, 99, 107, 45, 99, 97, 99, 104, 101, 45, 115, 105, 122, 101].as_slice(), &val);  // "block-cache-size"
    let val = Value::Bool(c.cache_index_and_filter_blocks);
    render_pair(out, [99u8, 97, 99, 104, 101, 45, 105, 110, 100, 101, 120, 45, 97, 110, 100, 45, 102, 105, 108, 116, 101, 114, 45, 98, 108, 111, 99, 107, 115].as_slice(), &val);  // "cache-index-and-filter-blocks"
    let val = Value::Bool(c.use_bloom_filter);
    render_pair(out, [117u8, 115, 101, 45, 98, 108, 111, 111, 109, 45, 102, 105, 108, 116, 101, 114].as_slice(), &val);  // "use-bloom-filter"
    let val = Value::Bool(c.whole_key_filtering);
    render_pair(out, [119u8, 104, 111, 108, 101, 45, 107, 101, 121, 45, 102, 105, 108, 116, 101, 114, 105, 110, 103].as_slice(), &val);  // "whole-key-filtering"
    let val = Value::Int(c.bloom_filter_bits_per_key as i64);
    render_pair(out, [98u8, 108, 111, 111, 109, 45, 102, 105, 108, 116, 101, 114, 45, 98, 105, 116, 115, 45, 112, 101, 114, 45, 107, 101, 121].as_slice(), &val);  // "bloom-filter-bits-per-key"
    proof {
        reveal(spec_cf_part1_doc);
        assert(out@ =~= old(out)@ + spec_cf_part1_doc(c@));
    }
}

#[verifier::opaque]
pub open spec fn spec_cf_part2_doc(c: CfConfigView) -> Seq<u8> {
    spec_render_line(LineV::Pair(seq![98u8, 108, 111, 99, 107, 45, 98, 97, 115, 101, 100, 45, 98, 108, 111, 111, 109, 45, 102, 105, 108, 116, 101, 114], ValueV::Bool(c.block_based_bloom_filter)))
        + spec_render_line(LineV::Pair(seq![99u8, 111, 109, 112, 114, 101, 115, 115, 105, 111, 110, 45, 112, 101, 114, 45, 108, 101, 118, 101, 108], ValueV::List(spec_names_of(c.compression_per_level))))
        + spec_render_line(LineV::Pair(seq![119u8, 114, 105, 116, 101, 45, 98, 117, 102, 102, 101, 114, 45, 115, 105, 122, 101], ValueV::Str(spec_fmt_size(c.write_buffer_size.0))))
        + spec_render_line(LineV::Pair(seq![109u8, 97, 120, 45, 119, 114, 105, 116, 101, 45, 98, 117, 102, 102, 101, 114, 45, 110, 117, 109, 98, 101, 114], ValueV::Int(c.max_write_buffer_number as i64)))
        + spec_render_line(LineV::Pair(seq![109u8, 105, 110, 45, 119, 114, 105, 116, 101, 45, 98, 117, 102, 102, 101, 114, 45, 110, 117, 109, 98, 101, 114, 45, 116, 111, 45, 109, 101, 114, 103, 101], ValueV::Int(c.min_write_buffer_number_to_merge as i64)))
        + spec_render_line(LineV::Pair(seq![109u8, 97, 120, 45, 98, 121, 116, 101, 115, 45, 102, 111, 114, 45, 108, 101, 118, 101, 108, 45, 98, 97, 115, 101], ValueV::Str(spec_fmt_size(c.max_bytes_for_level_base.0))))
}

#[verifier::rlimit(100)]
#[verifier::spinoff_prover]
pub fn render_cf_part2_section(out: &mut Vec<u8>, c: &CfConfig)
    ensures
        final(out)@ == old(out)@ + spec_cf_part2_doc(c@),
{
    let val = Value::Bool(c.block_based_bloom_filter);
    render_pair(out, [98u8, 108, 111, 99, 107, 45, 98, 97, 115, 101, 100, 45, 98, 108, 111, 111, 109, 45, 102, 105, 108, 116, 101, 114].as_slice(), &val);  // "block-based-bloom-filter"
    let val = Value::List(names_of(&c.compression_per_level));
    render_pair(out, [99u8, 111, 109, 112, 114, 101, 115, 115, 105, 111, 110, 45, 112, 101, 114, 45, 108, 101, 118, 101, 108].as_slice(), &val);  // "compression-per-level"
    let val = Value::Str(fmt_size(c.write_buffer_size.0));
    render_pair(out, [119u8, 114, 105, 116, 101, 45, 98, 117, 102, 102, 101, 114, 45, 115, 105, 122, 101].as_slice(), &val);  // "write-buffer-size"
    let val = Value::Int(c.max_write_buffer_number as i64);
    render_pair(out, [109u8, 97, 120, 45, 119, 114, 105, 116, 101, 45, 98, 117, 102, 102, 101, 114, 45, 110, 117, 109, 98, 101, 114].as_slice(), &val);  // "max-write-buffer-number"
    let val = Value::Int(c.min_write_buffer_number_to_merge as i64);
    render_pair(out, [109u8, 105, 110, 45, 119, 114, 105, 116, 101, 45, 98, 117, 102, 102, 101, 114, 45, 110, 117, 109, 98, 101, 114, 45, 116, 111, 45, 109, 101, 114, 103, 101].as_slice(), &val);  // "min-write-buffer-number-to-merge"
    let val = Value::Str(fmt_size(c.max_bytes_for_level_base.0));
    render_pair(out, [109u8, 97, 120, 45, 98, 121, 116, 101, 115, 45, 102, 111, 114, 45, 108, 101, 118, 101, 108, 45, 98, 97, 115, 101].as_slice(), &val);  // "max-bytes-for-level-base"
    proof {
        reveal(spec_cf_part2_doc);
        assert(out@ =~= old(out)@ + spec_cf_part2_doc(c@));
    }
}

#[verifier::opaque]
pub open spec fn spec_cf_part3_doc(c: CfConfigView) -> Seq<u8> {
    spec_render_line(LineV::Pair(seq![116u8, 97, 114, 103, 101, 116, 45, 102, 105, 108, 101, 45, 115, 105, 122, 101, 45, 98, 97, 115, 101], ValueV::Str(spec_fmt_size(c.target_file_size_base.0))))
        + spec_render_line(LineV::Pair(seq![108u8, 101, 118, 101, 108, 48, 45, 102, 105, 108, 101, 45, 110, 117, 109, 45, 99, 111, 109, 112, 97, 99, 116, 105, 111, 110, 45, 116, 114, 105, 103, 103, 101, 114], ValueV::Int(c.level0_file_num_compaction_trigger as i64)))
        + spec_render_line(LineV::Pair(seq![108u8, 101, 118, 101, 108, 48, 45, 115, 108, 111, 119, 100, 111, 119, 110, 45, 119, 114, 105, 116, 101, 115, 45, 116, 114, 105, 103, 103, 101, 114], ValueV::Int(c.level0_slowdown_writes_trigger as i64)))
        + spec_render_line(LineV::Pair(seq![108u8, 101, 118, 101, 108, 48, 45, 115, 116, 111, 112, 45, 119, 114, 105, 116, 101, 115, 45, 116, 114, 105, 103, 103, 101, 114], ValueV::Int(c.level0_stop_writes_trigger as i64)))
        + spec_render_line(LineV::Pair(seq![109u8, 97, 120, 45, 99, 111, 109, 112, 97, 99, 116, 105, 111, 110, 45, 98, 121, 116, 101, 115], ValueV::Str(spec_fmt_size(c.max_compaction_bytes.0))))
        + spec_render_line(LineV::Pair(seq![99u8, 111, 109, 112, 97, 99, 116, 105, 111, 110, 45, 112, 114, 105], ValueV::Int(spec_compaction_pri_wire(c.compaction_pri))))
}

#[verifier::rlimit(100)]
#[verifier::spinoff_prover]
pub fn render_cf_part3_section(out: &mut Vec<u8>, c: &CfConfig)
    ensures
        final(out)@ == old(out)@ + spec_cf_part3_doc(c@),
{
    let val = Value::Str(fmt_size(c.target_file_size_base.0));
    render_pair(out, [116u8, 97, 114, 103, 101, 116, 45, 102, 105, 108, 101, 45, 115, 105, 122, 101, 45, 98, 97, 115, 101].as_slice(), &val);  // "target-file-size-base"
    let val = Value::Int(c.level0_file_num_compaction_trigger as i64);
    render_pair(out, [108u8, 101, 118, 101, 108, 48, 45, 102, 105, 108, 101, 45, 110, 117, 109, 45, 99, 111, 109, 112, 97, 99, 116, 105, 111, 110, 45, 116, 114, 105, 103, 103, 101, 114].as_slice(), &val);  // "level0-file-num-compaction-trigger"
    let val = Value::Int(c.level0_slowdown_writes_trigger as i64);
    render_pair(out, [108u8, 101, 118, 101, 108, 48, 45, 115, 108, 111, 119, 100, 111, 119, 110, 45, 119, 114, 105, 116, 101, 115, 45, 116, 114, 105, 103, 103, 101, 114].as_slice(), &val);  // "level0-slowdown-writes-trigger"
    let val = Value::Int(c.level0_stop_writes_trigger as i64);
    render_pair(out, [108u8, 101, 118, 101, 108, 48, 45, 115, 116, 111, 112, 45, 119, 114, 105, 116, 101, 115, 45, 116, 114, 105, 103, 103, 101, 114].as_slice(), &val);  // "level0-stop-writes-trigger"
    let val = Value::Str(fmt_size(c.max_compaction_bytes.0));
    render_pair(out, [109u8, 97, 120, 45, 99, 111, 109, 112, 97, 99, 116, 105, 111, 110, 45, 98, 121, 116, 101, 115].as_slice(), &val);  // "max-compaction-bytes"
    let val = Value::Int(compaction_pri_wire(c.compaction_pri));
    render_pair(out, [99u8, 111, 109, 112, 97, 99, 116, 105, 111, 110, 45, 112, 114, 105].as_slice(), &val);  // "compaction-pri"
    proof {
        reveal(spec_cf_part3_doc);
        assert(out@ =~= old(out)@ + spec_cf_part3_doc(c@));
    }
}

/// The rendered lines of the whole section.
pub open spec fn spec_cf_doc(c: CfConfigView) -> Seq<u8> {
    spec_cf_part1_doc(c) + spec_cf_part2_doc(c) + spec_cf_part3_doc(c)
}

pub fn render_cf_section(out: &mut Vec<u8>, c: &CfConfig)
    ensures
        final(out)@ == old(out)@ + spec_cf_doc(c@),
{
    render_cf_part1_section(out, c);
    render_cf_part2_section(out, c);
    render_cf_part3_section(out, c);
    proof {
        assert(out@ =~= old(out)@ + spec_cf_doc(c@));
    }
}

#[verifier::opaque]
pub open spec fn spec_apply_tree_part1(t: TiKvConfigView, sec: Seq<u8>, k: Seq<u8>, v: ValueV) -> Result<
    TiKvConfigView,
    ParseError,
> {
    if sec.len() == 0 {  // "[]"
        match spec_apply_top(t, k, v) {
            Err(e) => Err(e),
            Ok(c2) => Ok(c2),
        }
    } else if sec == seq![115u8, 101, 114, 118, 101, 114] {  // "[server]"
        match spec_apply_server(t.server, k, v) {
            Err(e) => Err(e),
            Ok(c2) => Ok(TiKvConfigView { server: c2, ..t }),
        }
    } else if sec == seq![115u8, 116, 111, 114, 97, 103, 101] {  // "[storage]"
        match spec_apply_storage(t.storage, k, v) {
            Err(e) => Err(e),
            Ok(c2) => Ok(TiKvConfigView { storage: c2, ..t }),
        }
    } else {
        spec_apply_tree_part2(t, sec, k, v)
    }
}

#[verifier::rlimit(100)]
#[verifier::spinoff_prover]
pub fn apply_tree_part1(t: &mut TiKvConfig, sec: &[u8], k: &[u8], v: Value) -> (r: Result<
    (),
    ParseError,
>)
    ensures
        ({
            match spec_apply_tree_part1(old(t)@, sec@, k@, v@) {
                Ok(t2) => r is Ok && final(t)@ == t2,
                Err(e) => r == Err::<(), ParseError>(e) && final(t)@ == old(t)@,
            }
        }),
{
    proof {
        reveal(spec_apply_tree_part1);
    }
    if sec.len() == 0 {  // "[]"
        apply_top(t, k, v)
    } else if bytes_eq(sec, [115u8, 101, 114, 118, 101, 114].as_slice()) {  // "[server]"
        apply_server(&mut t.server, k, v)
    } else if bytes_eq(sec, [115u8, 116, 111, 114, 97, 103, 101].as_slice()) {  // "[storage]"
        apply_storage(&mut t.storage, k, v)
    } else {
        apply_tree_part2(t, sec, k, v)
    }
}

#[verifier::opaque]
pub open spec fn spec_apply_tree_part2(t: TiKvConfigView, sec: Seq<u8>, k: Seq<u8>, v: ValueV) -> Result<
    TiKvConfigView,
    ParseError,
> {
    if sec == seq![112u8, 100] {  // "[pd]"
        match spec_apply_pd(t.pd, k, v) {
            Err(e) => Err(e),
            Ok(c2) => Ok(TiKvConfigView { pd: c2, ..t }),
        }
    } else if sec == seq![109u8, 101, 116, 114, 105, 99] {  // "[metric]"
        match spec_apply_metric(t.metric, k, v) {
            Err(e) => Err(e),
            Ok(c2) => Ok(TiKvConfigView { metric: c2, ..t }),
        }
    } else if sec == seq![114u8, 97, 102, 116, 115, 116, 111, 114, 101] {  // "[raftstore]"
        match spec_apply_raftstore(t.raft_store, k, v) {
            Err(e) => Err(e),
            Ok(c2) => Ok(TiKvConfigView { raft_store: c2, ..t }),
        }
    } else {
        spec_apply_tree_part3(t, sec, k, v)
    }
}

#[verifier::rlimit(100)]
#[verifier::spinoff_prover]
pub fn apply_tree_part2(t: &mut TiKvConfig, sec: &[u8], k: &[u8], v: Value) -> (r: Result<
    (),
    ParseError,
>)
    ensures
        ({
            match spec_apply_tree_part2(old(t)@, sec@, k@, v@) {
                Ok(t2) => r is Ok && final(t)@ == t2,
                Err(e) => r == Err::<(), ParseError>(e) && final(t)@ == old(t)@,
            }
        }),
{
    proof {
        reveal(spec_apply_tree_part2);
    }
    if bytes_eq(sec, [112u8, 100].as_slice()) {  // "[pd]"
        apply_pd(&mut t.pd, k, v)
    } else if bytes_eq(sec, [109u8, 101, 116, 114, 105, 99].as_slice()) {  // "[metric]"
        apply_metric(&mut t.metric, k, v)
    } else if bytes_eq(sec, [114u8, 97, 102, 116, 115, 116, 111, 114, 101].as_slice()) {  // "[raftstore]"
        apply_raftstore(&mut t.raft_store, k, v)
    } else {
        apply_tree_part3(t, sec, k, v)
    }
}

#[verifier::opaque]
pub open spec fn spec_apply_tree_part3(t: TiKvConfigView, sec: Seq<u8>, k: Seq<u8>, v: ValueV) -> Result<
    TiKvConfigView,
    ParseError,
> {
    if sec == seq![114u8, 111, 99, 107, 115, 100, 98] {  // "[rocksdb]"
        match spec_apply_db_part1(t.rocksdb, k, v) {
            Err(e) => Err(e),
            Ok(c2) => Ok(TiKvConfigView { rocksdb: c2, ..t }),
        }
    } else if sec == seq![114u8, 111, 99, 107, 115, 100, 98, 46, 100, 101, 102, 97, 117, 108, 116, 99, 102] {  // "[rocksdb.defaultcf]"
        match spec_apply_cf_part1(t.rocksdb.defaultcf, k, v) {
            Err(e) => Err(e),
            Ok(c2) => Ok(TiKvConfigView { rocksdb: DbConfigView { defaultcf: c2, ..t.rocksdb }, ..t }),
        }
    } else if sec == seq![114u8, 111, 99, 107, 115, 100, 98, 46, 119, 114, 105, 116, 101, 99, 102] {  // "[rocksdb.writecf]"
        match spec_apply_cf_part1(t.rocksdb.writecf, k, v) {
            Err(e) => Err(e),
            Ok(c2) => Ok(TiKvConfigView { rocksdb: DbConfigView { writecf: c2, ..t.rocksdb }, ..t }),
        }
    } else {
        spec_apply_tree_part4(t, sec, k, v)
    }
}

#[verifier::rlimit(100)]
#[verifier::spinoff_prover]
pub fn apply_tree_part3(t: &mut TiKvConfig, sec: &[u8], k: &[u8], v: Value) -> (r: Result<
    (),
    ParseError,
>)
    ensures
        ({
            match spec_apply_tree_part3(old(t)@, sec@, k@, v@) {
                Ok(t2) => r is Ok && final(t)@ == t2,
                Err(e) => r == Err::<(), ParseError>(e) && final(t)@ == old(t)@,
            }
        }),
{
    proof {
        reveal(spec_apply_tree_part3);
    }
    if bytes_eq(sec, [114u8, 111, 99, 107, 115, 100, 98].as_slice()) {  // "[rocksdb]"
        apply_db_part1(&mut t.rocksdb, k, v)
    } else if bytes_eq(sec, [114u8, 111, 99, 107, 115, 100, 98, 46, 100, 101, 102, 97, 117, 108, 116, 99, 102].as_slice()) {  // "[rocksdb.defaultcf]"
        apply_cf_part1(&mut t.rocksdb.defaultcf.cf, k, v)
    } else if bytes_eq(sec, [114u8, 111, 99, 107, 115, 100, 98, 46, 119, 114, 105, 116, 101, 99, 102].as_slice()) {  // "[rocksdb.writecf]"
        apply_cf_part1(&mut t.rocksdb.writecf.cf, k, v)
    } else {
        apply_tree_part4(t, sec, k, v)
    }
}

#[verifier::opaque]
pub open spec fn spec_apply_tree_part4(t: TiKvConfigView, sec: Seq<u8>, k: Seq<u8>, v: ValueV) -> Result<
    TiKvConfigView,
    ParseError,
> {
    if sec == seq![114u8, 111, 99, 107, 115, 100, 98, 46, 108, 111, 99, 107, 99, 102] {  // "[rocksdb.lockcf]"
        match spec_apply_cf_part1(t.rocksdb.lockcf, k, v) {
            Err(e) => Err(e),
            Ok(c2) => Ok(TiKvConfigView { rocksdb: DbConfigView { lockcf: c2, ..t.rocksdb }, ..t }),
        }
    } else if sec == seq![114u8, 111, 99, 107, 115, 100, 98, 46, 114, 97, 102, 116, 99, 102] {  // "[rocksdb.raftcf]"
        match spec_apply_cf_part1(t.rocksdb.raftcf, k, v) {
            Err(e) => Err(e),
            Ok(c2) => Ok(TiKvConfigView { rocksdb: DbConfigView { raftcf: c2, ..t.rocksdb }, ..t }),
        }
    } else if sec == seq![114u8, 97, 102, 116, 100, 98] {  // "[raftdb]"
        match spec_apply_raftdb_part1(t.raftdb, k, v) {
            Err(e) => Err(e),
            Ok(c2) => Ok(TiKvConfigView { raftdb: c2, ..t }),
        }
    } else {
        spec_apply_tree_part5(t, sec, k, v)
    }
}

#[verifier::rlimit(100)]
#[verifier::spinoff_prover]
pub fn apply_tree_part4(t: &mut TiKvConfig, sec: &[u8], k: &[u8], v: Value) -> (r: Result<
    (),
    ParseError,
>)
    ensures
        ({
            match spec_apply_tree_part4(old(t)@, sec@, k@, v@) {
                Ok(t2) => r is Ok && final(t)@ == t2,
                Err(e) => r == Err::<(), ParseError>(e) && final(t)@ == old(t)@,
            }
        }),
{
    proof {
        reveal(spec_apply_tree_part4);
    }
    if bytes_eq(sec, [114u8, 111, 99, 107, 115, 100, 98, 46, 108, 111, 99, 107, 99, 102].as_slice()) {  // "[rocksdb.lockcf]"
        apply_cf_part1(&mut t.rocksdb.lockcf.cf, k, v)
    } else if bytes_eq(sec, [114u8, 111, 99, 107, 115, 100, 98, 46, 114, 97, 102, 116, 99, 102].as_slice()) {  // "[rocksdb.raftcf]"
        apply_cf_part1(&mut t.rocksdb.raftcf.cf, k, v)
    } else if bytes_eq(sec, [114u8, 97, 102, 116, 100, 98].as_slice()) {  // "[raftdb]"
        apply_raftdb_part1(&mut t.raftdb, k, v)
    } else {
        apply_tree_part5(t, sec, k, v)
    }
}

#[verifier::opaque]
pub open spec fn spec_apply_tree_part5(t: TiKvConfigView, sec: Seq<u8>, k: Seq<u8>, v: ValueV) -> Result<
    TiKvConfigView,
    ParseError,
> {
    if sec == seq![114u8, 97, 102, 116, 100, 98, 46, 100, 101, 102, 97, 117, 108, 116, 99, 102] {  // "[raftdb.defaultcf]"
        match spec_apply_cf_part1(t.raftdb.defaultcf, k, v) {
            Err(e) => Err(e),
            Ok(c2) => Ok(TiKvConfigView { raftdb: RaftDbConfigView { defaultcf: c2, ..t.raftdb }, ..t }),
        }
    } else {
        Ok(t)
    }
}

#[verifier::rlimit(100)]
#[verifier::spinoff_prover]
pub fn apply_tree_part5(t: &mut TiKvConfig, sec: &[u8], k: &[u8], v: Value) -> (r: Result<
    (),
    ParseError,
>)
    ensures
        ({
            match spec_apply_tree_part5(old(t)@, sec@, k@, v@) {
                Ok(t2) => r is Ok && final(t)@ == t2,
                Err(e) => r == Err::<(), ParseError>(e) && final(t)@ == old(t)@,
            }
        }),
{
    proof {
        reveal(spec_apply_tree_part5);
    }
    if bytes_eq(sec, [114u8, 97, 102, 116, 100, 98, 46, 100, 101, 102, 97, 117, 108, 116, 99, 102].as_slice()) {  // "[raftdb.defaultcf]"
        apply_cf_part1(&mut t.raftdb.defaultcf.cf, k, v)
    } else {
        Ok(())
    }
}

/// Applies one `key = value` line to the tree, routed by its section.
///
/// An unknown section or key is ignored; a known key with an unusable value
/// is an error and the tree is left unchanged.
pub open spec fn spec_apply(t: TiKvConfigView, sec: Seq<u8>, k: Seq<u8>, v: ValueV) -> Result<
    TiKvConfigView,
    ParseError,
> {
    spec_apply_tree_part1(t, sec, k, v)
}

/// Applies one `key = value` line to the tree.
pub fn apply_tree(t: &mut TiKvConfig, sec: &[u8], k: &[u8], v: Value) -> (r: Result<
    (),
    ParseError,
>)
    ensures
        ({
            match spec_apply(old(t)@, sec@, k@, v@) {
                Ok(t2) => r is Ok && final(t)@ == t2,
                Err(e) => r == Err::<(), ParseError>(e) && final(t)@ == old(t)@,
            }
        }),
{
    apply_tree_part1(t, sec, k, v)
}

/// What reading a document onto the tree yields: lines are consumed in
/// order, headers switch the current section, pairs are applied, and the
/// first failure wins. Every line must end with a newline.
pub open spec fn spec_parse_doc(t: TiKvConfigView, sec: Seq<u8>, s: Seq<u8>) -> Result<
    TiKvConfigView,
    ParseError,
>
    decreases s.len(),
{
    if s.len() == 0 {
        Ok(t)
    } else {
        match spec_find_byte(s, NL) {
            None => Err(ParseError::Syntax),
            Some(i) => if !(0 <= i < s.len()) {
                Err(ParseError::Syntax)
            } else {
                let line = s.take(i);
                let rest = s.skip(i + 1);
                match spec_lex_line(line) {
                    None => Err(ParseError::Syntax),
                    Some(l) => match l {
                        LineV::Blank => spec_parse_doc(t, sec, rest),
                        LineV::Header(n) => spec_parse_doc(t, n, rest),
                        LineV::Pair(k, v) => match spec_apply(t, sec, k, v) {
                            Err(e) => Err(e),
                            Ok(t2) => spec_parse_doc(t2, sec, rest),
                        },
                    },
                }
            },
        }
    }
}

/// What reading a whole document onto a base tree yields.
pub open spec fn spec_parse(base: TiKvConfigView, s: Seq<u8>) -> Result<
    TiKvConfigView,
    ParseError,
> {
    spec_parse_doc(base, Seq::empty(), s)
}

/// Reads a document onto `base`: unset keys keep the base's values.
#[verifier::rlimit(80)]
#[verifier::spinoff_prover]
pub fn parse_toml(text: &[u8], base: TiKvConfig) -> (r: Result<TiKvConfig, ParseError>)
    ensures
        ({
            match r {
                Ok(t) => spec_parse(base@, text@) == Ok::<TiKvConfigView, ParseError>(t@),
                Err(e) => spec_parse(base@, text@) == Err::<TiKvConfigView, ParseError>(e),
            }
        }),
{
    let mut t = base;
    let mut sec: Vec<u8> = Vec::new();
    let mut pos: usize = 0;
    proof {
        assert(text@.skip(0) =~= text@);
        assert(sec@ =~= Seq::<u8>::empty());
    }
    while pos < text.len()
        invariant
            0 <= pos <= text@.len(),
            spec_parse_doc(base@, Seq::empty(), text@) == spec_parse_doc(
                t@,
                sec@,
                text@.skip(pos as int),
            ),
        decreases text@.len() - pos,
    {
        let ghost rem = text@.skip(pos as int);
        let nl = match find_byte_from(text, NL, pos) {
            None => {
                return Err(ParseError::Syntax);
            },
            Some(i) => i,
        };
        proof {
            assert(spec_find_byte(rem, NL) == Some(nl - pos));
        }
        let line = vstd::slice::slice_subrange(text, pos, nl);
        proof {
            assert(line@ =~= rem.take((nl - pos) as int));
            assert(rem.skip((nl - pos) as int + 1) =~= text@.skip(nl + 1));
        }
        let lx = match lex_line(line) {
            None => {
                return Err(ParseError::Syntax);
            },
            Some(l) => l,
        };
        match lx {
            Line::Blank => {},
            Line::Header(n) => {
                sec = n;
            },
            Line::Pair(k, v) => {
                match apply_tree(&mut t, sec.as_slice(), k.as_slice(), v) {
                    Ok(()) => {},
                    Err(e) => {
                        return Err(e);
                    },
                }
            },
        }
        pos = nl + 1;
    }
    proof {
        assert(text@.skip(pos as int).len() == 0);
    }
    Ok(t)
}

/// The full rendered document of a tree: the top-level keys, then every
/// section in declaration order.
pub open spec fn spec_format(t: TiKvConfigView) -> Seq<u8> {
    spec_top_doc(t)
        + spec_render_line(LineV::Header(seq![115u8, 101, 114, 118, 101, 114])) + spec_server_doc(t.server)
        + spec_render_line(LineV::Header(seq![115u8, 116, 111, 114, 97, 103, 101])) + spec_storage_doc(t.storage)
        + spec_render_line(LineV::Header(seq![112u8, 100])) + spec_pd_doc(t.pd)
        + spec_render_line(LineV::Header(seq![109u8, 101, 116, 114, 105, 99])) + spec_metric_doc(t.metric)
        + spec_render_line(LineV::Header(seq![114u8, 97, 102, 116, 115, 116, 111, 114, 101])) + spec_raftstore_doc(t.raft_store)
        + spec_render_line(LineV::Header(seq![114u8, 111, 99, 107, 115, 100, 98])) + spec_db_doc(t.rocksdb)
        + spec_render_line(LineV::Header(seq![114u8, 111, 99, 107, 115, 100, 98, 46, 100, 101, 102, 97, 117, 108, 116, 99, 102])) + spec_cf_doc(t.rocksdb.defaultcf)
        + spec_render_line(LineV::Header(seq![114u8, 111, 99, 107, 115, 100, 98, 46, 119, 114, 105, 116, 101, 99, 102])) + spec_cf_doc(t.rocksdb.writecf)
        + spec_render_line(LineV::Header(seq![114u8, 111, 99, 107, 115, 100, 98, 46, 108, 111, 99, 107, 99, 102])) + spec_cf_doc(t.rocksdb.lockcf)
        + spec_render_line(LineV::Header(seq![114u8, 111, 99, 107, 115, 100, 98, 46, 114, 97, 102, 116, 99, 102])) + spec_cf_doc(t.rocksdb.raftcf)
        + spec_render_line(LineV::Header(seq![114u8, 97, 102, 116, 100, 98])) + spec_raftdb_doc(t.raftdb)
        + spec_render_line(LineV::Header(seq![114u8, 97, 102, 116, 100, 98, 46, 100, 101, 102, 97, 117, 108, 116, 99, 102])) + spec_cf_doc(t.raftdb.defaultcf)
}

/// Renders the tree as a configuration document.
#[verifier::rlimit(90)]
#[verifier::spinoff_prover]
pub fn format_toml(t: &TiKvConfig) -> (r: Vec<u8>)
    ensures
        r@ == spec_format(t@),
{
    let mut out: Vec<u8> = Vec::new();
    render_top_section(&mut out, t);
    render_header(&mut out, [115u8, 101, 114, 118, 101, 114].as_slice());  // "server"
    render_server_section(&mut out, &t.server);
    render_header(&mut out, [115u8, 116, 111, 114, 97, 103, 101].as_slice());  // "storage"
    render_storage_section(&mut out, &t.storage);
    render_header(&mut out, [112u8, 100].as_slice());  // "pd"
    render_pd_section(&mut out, &t.pd);
    render_header(&mut out, [109u8, 101, 116, 114, 105, 99].as_slice());  // "metric"
    render_metric_section(&mut out, &t.metric);
    render_header(&mut out, [114u8, 97, 102, 116, 115, 116, 111, 114, 101].as_slice());  // "raftstore"
    render_raftstore_section(&mut out, &t.raft_store);
    render_header(&mut out, [114u8, 111, 99, 107, 115, 100, 98].as_slice());  // "rocksdb"
    render_db_section(&mut out, &t.rocksdb);
    render_header(&mut out, [114u8, 111, 99, 107, 115, 100, 98, 46, 100, 101, 102, 97, 117, 108, 116, 99, 102].as_slice());  // "rocksdb.defaultcf"
    render_cf_section(&mut out, &t.rocksdb.defaultcf.cf);
    render_header(&mut out, [114u8, 111, 99, 107, 115, 100, 98, 46, 119, 114, 105, 116, 101, 99, 102].as_slice());  // "rocksdb.writecf"
    render_cf_section(&mut out, &t.rocksdb.writecf.cf);
    render_header(&mut out, [114u8, 111, 99, 107, 115, 100, 98, 46, 108, 111, 99, 107, 99, 102].as_slice());  // "rocksdb.lockcf"
    render_cf_section(&mut out, &t.rocksdb.lockcf.cf);
    render_header(&mut out, [114u8, 111, 99, 107, 115, 100, 98, 46, 114, 97, 102, 116, 99, 102].as_slice());  // "rocksdb.raftcf"
    render_cf_section(&mut out, &t.rocksdb.raftcf.cf);
    render_header(&mut out, [114u8, 97, 102, 116, 100, 98].as_slice());  // "raftdb"
    render_raftdb_section(&mut out, &t.raftdb);
    render_header(&mut out, [114u8, 97, 102, 116, 100, 98, 46, 100, 101, 102, 97, 117, 108, 116, 99, 102].as_slice());  // "raftdb.defaultcf"
    render_cf_section(&mut out, &t.raftdb.defaultcf.cf);
    proof {
        assert(out@ =~= spec_format(t@));
    }
    out
}

} // verus!
