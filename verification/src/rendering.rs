//! Settings of a render, and the name of the file each microphone's impulse
//! response goes to.

use crate::text::{decimal, push_char, push_decimal};
use vstd::prelude::*;

verus! {

/// The settings of a render. Scalar quantities are of a type `S` that this
/// module only stores.
#[derive(Debug, Clone)]
pub struct RenderSettings<S> {
    /// The maximal number of bounces of a traced ray.
    pub max_bounces: usize,
    /// The number of rays traced for each microphone.
    pub samples: usize,
    /// The speed of sound.
    pub speed_of_sound: S,
    /// The gain applied to the signal that the compressor listens to.
    pub compressor_gain: S,
    /// The level above which the compressor reduces gain.
    pub compressor_threshold: S,
    /// How fast the compressor lets go.
    pub compressor_release: S,
    /// The number of samples per second.
    pub sample_rate: u32,
    /// The name of the output file; each `#` in it stands for the number of
    /// the microphone.
    pub output_path: String,
}

/// The character that stands for a placeholder in a file name.
pub open spec fn placeholder() -> char {
    '#'
}

/// `template` with `number` in the place of each placeholder.
pub open spec fn substituted(template: Seq<char>, number: Seq<char>) -> Seq<char>
    decreases template.len(),
{
    if template.len() == 0 {
        Seq::empty()
    } else if template.last() == placeholder() {
        substituted(template.drop_last(), number) + number
    } else {
        substituted(template.drop_last(), number).push(template.last())
    }
}

/// A template without a placeholder is left as it is.
pub proof fn lemma_nothing_to_substitute(template: Seq<char>, number: Seq<char>)
    requires
        !template.contains(placeholder()),
    ensures
        substituted(template, number) == template,
    decreases template.len(),
{
    if template.len() > 0 {
        assert(template.last() == template[template.len() - 1]);
        assert forall|i: int| 0 <= i < template.drop_last().len() implies template.drop_last()[i]
            != placeholder() by {
            assert(template[i] == template.drop_last()[i]);
        }
        lemma_nothing_to_substitute(template.drop_last(), number);
        assert(template.drop_last().push(template.last()) =~= template);
    }
}

/// The name of the file for the microphone numbered `microphone_index`:
/// `template` with that number, in decimal, in the place of each `#`.
pub fn output_path(template: &str, microphone_index: usize) -> (path: String)
    ensures
        path@ == substituted(template@, decimal(microphone_index as nat)),
{
    let mut path = String::new();
    for c in it: template.chars()
        invariant
            it.seq() == template@,
            path@ == substituted(
                template@.take(it.index() as int),
                decimal(microphone_index as nat),
            ),
    {
        proof {
            let seen = template@.take(it.index() + 1);
            assert(seen.last() == c);
            assert(seen.drop_last() =~= template@.take(it.index() as int));
        }
        if c == '#' {
            push_decimal(&mut path, microphone_index as u64);
        } else {
            push_char(&mut path, c);
        }
    }
    assert(template@.take(template@.len() as int) =~= template@);
    path
}

impl<S> RenderSettings<S> {
    /// The name of the output file for the microphone numbered
    /// `microphone_index`.
    pub fn output_path_for(&self, microphone_index: usize) -> (path: String)
        ensures
            path@ == substituted(self.output_path@, decimal(microphone_index as nat)),
    {
        output_path(self.output_path.as_str(), microphone_index)
    }
}

} // verus!
