//! The envelope handoff: a lock-free single-writer/single-reader triple
//! buffer through which the audio thread publishes each block's waveform
//! envelope for the display thread.
//!
//! Publication is modelled by [`published_of`], the latest envelope the
//! writer committed. What the reader sees depends on timing against the
//! writer, so the read side promises no particular value — only that reads
//! never block and never observe a torn envelope, which is the outside
//! crate's contract.

use vstd::prelude::*;

verus! {

#[verifier::external_type_specification]
#[verifier::external_body]
#[verifier::reject_recursive_types(T)]
pub struct ExTripleBufferInput<T: Send>(triple_buffer::Input<T>);

#[verifier::external_type_specification]
#[verifier::external_body]
#[verifier::reject_recursive_types(T)]
pub struct ExTripleBufferOutput<T: Send>(triple_buffer::Output<T>);

/// The envelope most recently committed by the writer half.
pub uninterp spec fn published_of(input: triple_buffer::Input<Vec<i32>>) -> Seq<i32>;

/// Relies on triple_buffer::TripleBuffer::new and split: a triple buffer
/// whose three slots start as clones of the given initial value (here the
/// empty envelope), split into its writer and reader halves.
#[verifier::external_body]
fn waveform_buffer_pair() -> (r: (
    triple_buffer::Input<Vec<i32>>,
    triple_buffer::Output<Vec<i32>>,
))
    ensures
        published_of(r.0) == Seq::<i32>::empty(),
{
    let initial: Vec<i32> = Vec::new();
    triple_buffer::TripleBuffer::new(&initial).split()
}

/// Relies on triple_buffer::Input::write: commits the value as the latest
/// complete snapshot without blocking on the reader.
#[verifier::external_body]
fn publish_waveform(input: &mut triple_buffer::Input<Vec<i32>>, envelope: Vec<i32>)
    ensures
        published_of(*final(input)) == envelope@,
{
    input.write(envelope);
}

/// Relies on triple_buffer::Output::read: fetches the most recent complete
/// snapshot the writer committed, without blocking it. Which snapshot that
/// is depends on timing, so no value is promised.
#[verifier::external_body]
fn read_waveform(output: &mut triple_buffer::Output<Vec<i32>>) -> (envelope: Vec<i32>)
{
    output.read().clone()
}

/// The writer half of the envelope handoff, held by the engine.
pub struct WaveformPublisher {
    pub input: triple_buffer::Input<Vec<i32>>,
}

impl WaveformPublisher {
    /// Commits an envelope as the latest complete snapshot.
    pub fn publish(&mut self, envelope: Vec<i32>)
        ensures
            published_of(final(self).input) == envelope@,
    {
        publish_waveform(&mut self.input, envelope);
    }
}

/// The reader half of the envelope handoff, held by the display thread.
pub struct WaveformReader {
    pub output: triple_buffer::Output<Vec<i32>>,
}

impl WaveformReader {
    /// Reads the most recent complete envelope snapshot without blocking the
    /// writer.
    pub fn read_latest(&mut self) -> (envelope: Vec<i32>) {
        read_waveform(&mut self.output)
    }
}

/// Creates the envelope handoff and wraps its two halves. The published
/// envelope starts empty.
pub fn new_waveform_handoff() -> (r: (WaveformPublisher, WaveformReader))
    ensures
        published_of(r.0.input) == Seq::<i32>::empty(),
{
    let pair = waveform_buffer_pair();
    (WaveformPublisher { input: pair.0 }, WaveformReader { output: pair.1 })
}

} // verus!
