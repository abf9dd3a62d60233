//! Total Brotli decompression: a buffer that decodes as a complete Brotli
//! stream yields its decompressed bytes, and any other buffer is handed back
//! as an exact copy.
use vstd::prelude::*;
use vstd::slice::slice_to_vec;

verus! {

/// What the Brotli decoder makes of a whole buffer: `Some(bytes)` where the
/// buffer begins with a complete, well-formed stream (bytes after its last
/// meta-block are ignored), `None` where decoding fails at any point.
pub uninterp spec fn brotli_decoded(input: Seq<u8>) -> Option<Seq<u8>>;

/// The bytes that a decode attempt hands back: the decoded bytes where the
/// attempt succeeded, the input itself where it failed.
pub open spec fn output_of(input: Seq<u8>, decoded: Option<Seq<u8>>) -> Seq<u8> {
    match decoded {
        Some(out) => out,
        None => input,
    }
}

/// The result of decompressing `input`.
pub open spec fn decompressed(input: Seq<u8>) -> Seq<u8> {
    output_of(input, brotli_decoded(input))
}

/// The view of an optional byte vector as an optional byte sequence.
pub open spec fn opt_bytes(v: Option<Vec<u8>>) -> Option<Seq<u8>> {
    match v {
        Some(b) => Some(b@),
        None => None,
    }
}

/// Relies on `brotli_decompressor::BrotliDecompress`, run with the buffer as
/// its reader and a fresh `Vec` as its writer: `Ok` leaves the decoded stream
/// in the writer, and the outcome depends on the bytes alone. Its first read
/// of an empty buffer yields no bytes, which it reports as an error.
#[verifier::external_body]
fn brotli_decompress(data: &[u8]) -> (r: Option<Vec<u8>>)
    ensures
        opt_bytes(r) == brotli_decoded(data@),
        data@.len() == 0 ==> r is None,
{
    let mut reader = data;
    let mut output = Vec::new();
    match brotli_decompressor::BrotliDecompress(&mut reader, &mut output) {
        Ok(()) => Some(output),
        Err(_) => None,
    }
}

/// Relies on `Vec::into_boxed_slice`: the same elements, in the same order.
#[verifier::external_body]
fn into_boxed(v: Vec<u8>) -> (r: Box<[u8]>)
    ensures
        r@ == v@,
{
    v.into_boxed_slice()
}

/// Finishes a decode attempt on `input`: the decoded bytes where the attempt
/// succeeded, else an exact copy of `input`.
pub fn select_output(input: &[u8], decoded: Option<Vec<u8>>) -> (r: Vec<u8>)
    ensures
        r@ == output_of(input@, opt_bytes(decoded)),
{
    match decoded {
        Some(out) => out,
        None => slice_to_vec(input),
    }
}

/// Decompresses a Brotli-compressed buffer, returning the decompressed data.
///
/// If the data cannot be decompressed, a copy of the input is returned.
pub fn decompress(data: &[u8]) -> (r: Box<[u8]>)
    ensures
        r@ == decompressed(data@),
        brotli_decoded(data@) is None ==> r@ == data@,
        data@.len() == 0 ==> r@.len() == 0,
{
    let decoded = brotli_decompress(data);
    into_boxed(select_output(data, decoded))
}

/// Decompresses an owned Brotli-compressed buffer, as [`decompress`] does.
pub fn decompress_js(data: Box<[u8]>) -> (r: Box<[u8]>)
    ensures
        r@ == decompressed(data@),
{
    decompress(&data)
}

/// A buffer that does not decode as a complete Brotli stream comes back
/// unchanged: random bytes, a truncated stream, a bad header.
pub proof fn lemma_undecodable_returned_unchanged(input: Seq<u8>)
    requires
        brotli_decoded(input) is None,
    ensures
        decompressed(input) == input,
{
}

/// Decompression is a function of the input bytes alone: two calls on equal
/// buffers give equal results, whatever was decompressed in between.
pub proof fn lemma_decompress_deterministic(first: Seq<u8>, second: Seq<u8>)
    requires
        first == second,
    ensures
        decompressed(first) == decompressed(second),
{
}

} // verus!
