use vstd::prelude::*;

verus! {

/// The output stream a color decision may be conditioned on; declared from
/// the terminal-probing crate so the library can carry it through.
#[verifier::external_type_specification]
#[verifier::external_body]
pub struct ExStream(supports_color::Stream);

/// Relies on supports_color::on: whether the stream, in the current
/// environment and terminal attachment, supports at least basic ANSI
/// coloring. The answer depends on the environment, so nothing is promised
/// of it.
#[verifier::external_body]
pub(crate) fn supports_color(stream: supports_color::Stream) -> (r: bool) {
    supports_color::on(stream).is_some_and(|support| support.has_basic)
}

} // verus!
