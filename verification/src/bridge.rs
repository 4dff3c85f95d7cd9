//! ArgumentBridge: validates and converts an untrusted, host-supplied
//! argument array into an owned, ordered sequence of text tokens.
//!
//! The hosting binary performs the raw foreign-memory reads (the null
//! checks on the array reference and the copy of each null-terminated
//! slot's bytes) and hands this module plain values: a declared count and a
//! possibly-absent list of byte payloads. All remaining validity checking —
//! absence handling and the decode check on every payload — happens here,
//! on owned data, before any token is accepted. The bridge interprets no
//! argument semantics; that is the parser's job.

use vstd::pervasive::unreached;
use vstd::prelude::*;

verus! {

/// What decoding a byte payload as text yields, if it decodes at all.
pub uninterp spec fn utf8_decode(bytes: Seq<u8>) -> Option<Seq<char>>;

/// Relies on String::from_utf8 (std): whether a byte payload decodes as
/// text, and to what text, depends on the bytes alone.
#[verifier::external_body]
fn decode_text(bytes: &Vec<u8>) -> (r: Option<String>)
    ensures
        r is Some <==> utf8_decode(bytes@) is Some,
        r matches Some(s) ==> utf8_decode(bytes@) == Some(s@),
{
    String::from_utf8(bytes.clone()).ok()
}

/// Convert a host argument array of `argc` byte payloads into owned text
/// tokens, preserving order and content exactly. An absent array is not an
/// error: the host simply supplied no arguments, and absence is returned.
/// A payload that does not decode is a host contract violation; callers
/// that cannot vouch for the payloads go through [`bridge_args`], which
/// performs the decode check itself.
pub fn parse_args_from_c(argc: usize, argv: Option<Vec<Vec<u8>>>) -> (r: Option<Vec<String>>)
    requires
        argv matches Some(a) ==> a@.len() == argc && (forall|i: int|
            0 <= i < a@.len() ==> utf8_decode(a@[i]@) is Some),
    ensures
        r is Some <==> argv is Some,
        argv is Some ==> {
            let a = argv->Some_0;
            let toks = r->Some_0;
            &&& toks@.len() == a@.len()
            &&& forall|i: int| 0 <= i < a@.len() ==> utf8_decode(a@[i]@) == Some(toks@[i]@)
        },
{
    if argv.is_none() {
        return None;
    }
    let a = argv.unwrap();
    let mut toks: Vec<String> = Vec::new();
    let mut i: usize = 0;
    while i < argc
        invariant
            a@.len() == argc,
            i <= argc,
            toks@.len() == i,
            forall|j: int| 0 <= j < a@.len() ==> utf8_decode(a@[j]@) is Some,
            forall|j: int| 0 <= j < i ==> utf8_decode(a@[j]@) == Some(toks@[j]@),
        decreases argc - i,
    {
        match decode_text(&a[i]) {
            Some(s) => toks.push(s),
            None => unreached(),
        }
        i = i + 1;
    }
    Some(toks)
}

/// Every outcome of bridging a host argument array: the host supplied no
/// array, or every slot decoded into a token, or some slot's payload is not
/// valid text.
#[derive(Debug, PartialEq, Eq)]
pub enum BridgedArgs {
    /// The host supplied no argument array.
    Absent,
    /// Every slot decoded; the tokens, in the order of the slots.
    Tokens(Vec<String>),
    /// The slot at this index is the first whose payload does not decode
    /// as text: a contract violation by the host.
    Invalid(usize),
}

/// Bridge a host argument array without vouching for its payloads: check
/// every slot's decodability first, and report the first offending slot
/// instead of requiring the caller to rule one out.
pub fn bridge_args(argc: usize, argv: Option<Vec<Vec<u8>>>) -> (r: BridgedArgs)
    requires
        argv matches Some(a) ==> a@.len() == argc,
    ensures
        argv is None <==> r is Absent,
        argv is Some ==> {
            let a = argv->Some_0;
            match r {
                BridgedArgs::Absent => false,
                BridgedArgs::Tokens(toks) => toks@.len() == a@.len() && (forall|i: int|
                    0 <= i < a@.len() ==> utf8_decode(a@[i]@) == Some(toks@[i]@)),
                BridgedArgs::Invalid(k) => k < a@.len() && utf8_decode(a@[k as int]@) is None && (
                forall|j: int| 0 <= j < k ==> utf8_decode(a@[j]@) is Some),
            }
        },
{
    if argv.is_none() {
        return BridgedArgs::Absent;
    }
    let a = argv.unwrap();
    let mut i: usize = 0;
    while i < argc
        invariant
            argv == Some(a),
            a@.len() == argc,
            i <= argc,
            forall|j: int| 0 <= j < i ==> utf8_decode(a@[j]@) is Some,
        decreases argc - i,
    {
        if decode_text(&a[i]).is_none() {
            return BridgedArgs::Invalid(i);
        }
        i = i + 1;
    }
    match parse_args_from_c(argc, Some(a)) {
        Some(toks) => BridgedArgs::Tokens(toks),
        None => unreached(),
    }
}

} // verus!
