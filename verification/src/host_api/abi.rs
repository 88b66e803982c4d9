//! The host-call interface as the plugin sees it: status codes, and what
//! is copied into the buffers that the plugin hands over.

use vstd::prelude::*;
use vstd::slice::slice_subrange;
use vstd::slice::slice_to_vec;
use vstd::string::StringExecFns;
use vstd::utf8::{encode_utf8, valid_utf8};
use crate::host_api::http::HttpResponse;
use crate::host_api::kv::KvAPI;
use crate::host_api::logging::{is_entry, last_entries, LogLevel, LoggingAPI, MAX_LOG_ENTRIES};
use crate::host_api::HostAPI;
use crate::text::{decimal, push_decimal, utf8_text};

verus! {

/// The call succeeded.
pub const STATUS_OK: i32 = 0;

/// A pointer was null.
pub const STATUS_NULL_POINTER: i32 = -1;

/// Bytes that should be text are not UTF-8.
pub const STATUS_INVALID_UTF8: i32 = -2;

/// The call failed, or what was asked for is not there.
pub const STATUS_FAILED: i32 = -3;

/// `n` cut to the range of `i32`.
pub open spec fn cut_i32(n: nat) -> i32 {
    if n > i32::MAX {
        i32::MAX
    } else {
        n as i32
    }
}

/// What of `data` fits a buffer of `out_len` bytes: its first bytes.
pub open spec fn fitting(data: Seq<u8>, out_len: nat) -> Seq<u8> {
    if data.len() <= out_len {
        data
    } else {
        data.take(out_len as int)
    }
}

/// What of `data` fits a buffer of `out_len` bytes.
pub fn copy_out(data: &[u8], out_len: usize) -> (r: Vec<u8>)
    ensures
        r@ == fitting(data@, out_len as nat),
{
    if data.len() <= out_len {
        slice_to_vec(data)
    } else {
        let part = slice_subrange(data, 0, out_len);
        assert(data@.subrange(0, out_len as int) =~= data@.take(out_len as int));
        slice_to_vec(part)
    }
}

/// The number of bytes as a status: the count, cut to the range of the
/// status.
pub fn count_status(n: usize) -> (code: i32)
    ensures
        code == cut_i32(n as nat),
        code >= 0,
{
    if n > i32::MAX as usize {
        i32::MAX
    } else {
        n as i32
    }
}

/// The text of a field of the event at hand, by its index.
pub open spec fn field_text(field_index: u32) -> Seq<char> {
    "field_"@ + decimal(field_index as nat)
}

/// Takes in a log call of a plugin. A null message and a message that is
/// not UTF-8 are refused with their status; else the message is put into
/// the log under its level, stamped `timestamp`. The call is counted as
/// a host call and as a log call in any case.
pub fn host_log(host: &mut HostAPI, log: &mut LoggingAPI, level: u32, message: Option<&[u8]>, timestamp: u64) -> (code:
    i32)
    requires
        old(log).wf(),
    ensures
        final(log).wf(),
        final(host).spec_host_calls() == old(host).spec_host_calls().wrapping_add(1),
        final(host).spec_log_calls() == old(host).spec_log_calls().wrapping_add(1),
        code == match message {
            None => STATUS_NULL_POINTER,
            Some(bytes) => if valid_utf8(bytes@) {
                STATUS_OK
            } else {
                STATUS_INVALID_UTF8
            },
        },
        code != STATUS_OK ==> final(log).entries() == old(log).entries(),
        code == STATUS_OK ==> {
            &&& final(log).entries().len() > 0
            &&& final(log).entries().last().timestamp == timestamp
            &&& final(log).entries().last().level == LogLevel::spec_from_u32(level)
            &&& encode_utf8(final(log).entries().last().message@) == message->0@
            &&& final(log).entries().last().plugin_id is Some
            &&& final(log).entries().last().plugin_id->0@ == "plugin"@
            &&& final(log).entries().drop_last() == last_entries(
                old(log).entries(),
                (MAX_LOG_ENTRIES - 1) as nat,
            )
        },
{
    let _ = host.log();
    let bytes = match message {
        Some(bytes) => bytes,
        None => {
            return STATUS_NULL_POINTER;
        },
    };
    let text = match utf8_text(bytes) {
        Some(text) => text,
        None => {
            return STATUS_INVALID_UTF8;
        },
    };
    log.log_at(LogLevel::from_u32(level), text, Some("plugin"), timestamp);
    STATUS_OK
}

/// The bytes of a field of the event at hand that fit the plugin's
/// buffer.
pub fn read_event_field(host: &mut HostAPI, field_index: u32, out_len: usize) -> (r: Vec<u8>)
    ensures
        final(host).spec_host_calls() == old(host).spec_host_calls().wrapping_add(1),
        final(host).spec_log_calls() == old(host).spec_log_calls(),
        r@ == fitting(encode_utf8(field_text(field_index)), out_len as nat),
{
    host.count_call();
    let mut text = String::from_str("field_");
    push_decimal(&mut text, field_index as u64);
    copy_out(text.as_str().as_bytes(), out_len)
}

/// Sets a value of the store for a plugin: a key that is not UTF-8 is
/// refused.
pub fn kv_set(kv: &mut KvAPI, key: &[u8], value: &[u8]) -> (code: i32)
    requires
        old(kv).wf(),
    ensures
        final(kv).wf(),
        code == if valid_utf8(key@) {
            STATUS_OK
        } else {
            STATUS_INVALID_UTF8
        },
        code != STATUS_OK ==> forall|k: Seq<char>| final(kv).spec_get(k) == old(kv).spec_get(k),
        code == STATUS_OK ==> exists|k: Seq<char>|
            #![trigger final(kv).spec_get(k)]
            encode_utf8(k) == key@ && final(kv).spec_get(k) == Some(value@) && forall|other: Seq<char>|
                other != k ==> final(kv).spec_get(other) == old(kv).spec_get(other),
{
    match utf8_text(key) {
        Some(text) => {
            let _ = kv.set(text, value);
            assert(kv.spec_get(text@) == Some(value@));
            STATUS_OK
        },
        None => STATUS_INVALID_UTF8,
    }
}

/// What a plugin gets for a key: the bytes that fit its buffer, or the
/// status of the refusal, for a key that is not UTF-8 and for a key that
/// is not set.
pub fn kv_get(kv: &KvAPI, key: &[u8], out_len: usize) -> (r: Result<Vec<u8>, i32>)
    requires
        kv.wf(),
    ensures
        !valid_utf8(key@) ==> r == Err::<Vec<u8>, i32>(STATUS_INVALID_UTF8),
        valid_utf8(key@) ==> exists|k: Seq<char>|
            #![trigger kv.spec_get(k)]
            encode_utf8(k) == key@ && match kv.spec_get(k) {
                Some(value) => r is Ok && r->Ok_0@ == fitting(value, out_len as nat),
                None => r == Err::<Vec<u8>, i32>(STATUS_FAILED),
            },
{
    match utf8_text(key) {
        Some(text) => {
            let found = kv.get(text);
            let ghost looked = kv.spec_get(text@);
            match found {
                Some(value) => {
                    let out = copy_out(value.as_slice(), out_len);
                    assert(looked == Some(value@));
                    Ok(out)
                },
                None => {
                    assert(looked is None);
                    Err(STATUS_FAILED)
                },
            }
        },
        None => Err(STATUS_INVALID_UTF8),
    }
}

/// Deletes a key for a plugin: the status says whether it was set.
pub fn kv_delete(kv: &mut KvAPI, key: &[u8]) -> (code: i32)
    requires
        old(kv).wf(),
    ensures
        final(kv).wf(),
        !valid_utf8(key@) ==> code == STATUS_INVALID_UTF8 && forall|k: Seq<char>|
            final(kv).spec_get(k) == old(kv).spec_get(k),
        valid_utf8(key@) ==> exists|k: Seq<char>|
            #![trigger old(kv).has(k)]
            encode_utf8(k) == key@ && !final(kv).has(k) && code == if old(kv).has(k) {
                STATUS_OK
            } else {
                STATUS_FAILED
            },
{
    match utf8_text(key) {
        Some(text) => {
            let ghost had = kv.has(text@);
            let was = kv.delete(text);
            assert(was == had);
            if was {
                STATUS_OK
            } else {
                STATUS_FAILED
            }
        },
        None => STATUS_INVALID_UTF8,
    }
}

/// What a plugin gets for an HTTP request: the status code with the bytes
/// of the body that fit its buffer, or the status of the refusal.
pub fn http_answer(outcome: Result<HttpResponse, String>, out_len: usize) -> (r: (i32, Vec<u8>))
    ensures
        match outcome {
            Ok(resp) => r.0 == resp.status_code && r.1@ == fitting(resp.body@, out_len as nat),
            Err(_) => r.0 == STATUS_FAILED && r.1@.len() == 0,
        },
{
    match outcome {
        Ok(resp) => (resp.status_code as i32, copy_out(resp.body.as_slice(), out_len)),
        Err(_) => (STATUS_FAILED, Vec::new()),
    }
}

} // verus!
