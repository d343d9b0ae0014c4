//! Batch semantics: which input paths take part, how each per-file result is
//! reported, and the guarantee that a batch yields exactly one outcome per
//! item, each tagged with its own file's name and decided by its own bytes
//! alone, so one corrupt file never disturbs the others.

use vstd::prelude::*;
use crate::encode::{encode_reject, EncodeError};
use crate::metadata::spec_app_segments;
use crate::pipeline::{
    encoder_input, process_image, spec_encoded_output, spec_output_dims, stage_buffer,
    stage_decoded, stage_dims, stage_ready, ProcessedImage, JPEG_QUALITY,
};

verus! {

/// The terminal per-file result: success or failure, tagged with the file's
/// display name; a failure also carries a description of its error.
pub enum Outcome {
    Success { name: String },
    Failure { name: String, reason: String },
}

impl Outcome {
    /// The display name the outcome is tagged with.
    pub open spec fn name_view(&self) -> Seq<char> {
        match self {
            Outcome::Success { name } => name@,
            Outcome::Failure { name, reason } => name@,
        }
    }

    /// The error description a failure carries; empty for a success.
    pub open spec fn reason_view(&self) -> Seq<char> {
        match self {
            Outcome::Success { name } => Seq::empty(),
            Outcome::Failure { name, reason } => reason@,
        }
    }

    /// The console line reporting this outcome.
    pub open spec fn spec_message(&self) -> Seq<char> {
        match self {
            Outcome::Success { name } => name@ + " is compressed."@,
            Outcome::Failure { name, reason } => name@ + " FAILED due to "@ + reason@,
        }
    }

    /// Renders the console line for this outcome.
    pub fn message(&self) -> (r: String)
        ensures
            r@ == self.spec_message(),
    {
        match self {
            Outcome::Success { name } => {
                let mut line = name.clone();
                line.append(" is compressed.");
                line
            },
            Outcome::Failure { name, reason } => {
                let mut line = name.clone();
                line.append(" FAILED due to ");
                line.append(reason.as_str());
                line
            },
        }
    }
}

/// A name carries a file extension: some dot stands after the first
/// character, the convention under which a leading dot alone marks a hidden
/// file rather than an extension.
pub open spec fn spec_has_extension(name: Seq<char>) -> bool {
    exists|i: int| 1 <= i < name.len() && #[trigger] name[i] == '.'
}

/// Tests whether a file name carries an extension.
#[verifier::loop_isolation(false)]
pub fn has_extension(name: &String) -> (r: bool)
    ensures
        r == spec_has_extension(name@),
{
    let n = name.as_str().unicode_len();
    let mut i: usize = 1;
    while i < n
        invariant
            1 <= i,
            forall|k: int| 1 <= k < i ==> #[trigger] name@[k] != '.',
        decreases n - i,
    {
        if name.as_str().get_char(i) == '.' {
            return true;
        }
        i += 1;
    }
    false
}

/// A path takes part in the batch exactly when it is a regular file whose
/// name carries an extension; everything else is silently excluded.
pub open spec fn spec_eligible(name: Seq<char>, is_regular_file: bool) -> bool {
    is_regular_file && spec_has_extension(name)
}

/// Tests whether a path takes part in the batch.
pub fn eligible(name: &String, is_regular_file: bool) -> (r: bool)
    ensures
        r == spec_eligible(name@, is_regular_file),
{
    is_regular_file && has_extension(name)
}

/// What the batch learns about one candidate path: its file name and whether
/// it is a regular file.
pub struct PathInfo {
    pub name: String,
    pub is_regular_file: bool,
}

/// The eligible names of a candidate list, in order.
pub open spec fn spec_filter_eligible(items: Seq<(Seq<char>, bool)>) -> Seq<Seq<char>>
    decreases items.len(),
{
    if items.len() == 0 {
        Seq::empty()
    } else {
        let rest = spec_filter_eligible(items.drop_last());
        let last = items.last();
        if spec_eligible(last.0, last.1) {
            rest.push(last.0)
        } else {
            rest
        }
    }
}

/// Keeps the names of the candidates that take part in the batch, in their
/// original order; directories and extensionless names are silently dropped.
#[verifier::loop_isolation(false)]
pub fn filter_eligible(items: &Vec<PathInfo>) -> (r: Vec<String>)
    ensures
        r@.map_values(|s: String| s@) == spec_filter_eligible(
            items@.map_values(|p: PathInfo| (p.name@, p.is_regular_file)),
        ),
{
    let ghost all = items@.map_values(|p: PathInfo| (p.name@, p.is_regular_file));
    let mut out: Vec<String> = Vec::new();
    let mut i: usize = 0;
    proof {
        assert(out@.map_values(|s: String| s@) =~= spec_filter_eligible(all.take(0)));
    }
    while i < items.len()
        invariant
            i <= items@.len(),
            out@.map_values(|s: String| s@) == spec_filter_eligible(all.take(i as int)),
        decreases items@.len() - i,
    {
        let item = &items[i];
        let ghost prev = out@.map_values(|s: String| s@);
        if eligible(&item.name, item.is_regular_file) {
            out.push(item.name.clone());
            proof {
                assert(out@.map_values(|s: String| s@) =~= prev.push(item.name@));
            }
        }
        proof {
            assert(all.take(i + 1).drop_last() =~= all.take(i as int));
            assert(all.take(i + 1).last() == all[i as int]);
        }
        i += 1;
    }
    proof {
        assert(all.take(items@.len() as int) =~= all);
    }
    out
}

/// The output file name: the input's name under a fixed prefix, so the result
/// lands beside its source without replacing it.
pub fn output_file_name(name: &String) -> (r: String)
    ensures
        r@ == "resized_"@ + name@,
{
    let mut out = String::from_str("resized_");
    out.append(name.as_str());
    out
}

/// Processes one named input: the outcome is tagged with the given name,
/// succeeds exactly when the pipeline's checks pass and the compressor
/// produces its named output, and then returns that encoded image, ready to
/// be written. Every failure reason below the decoder's own text is pinned to
/// the classifying error's description.
pub fn process_one(name: String, bytes: &Vec<u8>, bound: u32) -> (r: (Outcome, Option<
    ProcessedImage,
>))
    requires
        bound >= 1,
    ensures
        r.0.name_view() == name@,
        r.0 is Success <==> r.1 is Some,
        r.0 is Success <==> (stage_ready(bytes@, bound as nat) && spec_encoded_output(
            bytes@,
            bound as nat,
        ) is Some),
        (r.1 matches Some(p) ==> {
            &&& Some(p.jpeg@) == spec_encoded_output(bytes@, bound as nat)
            &&& (p.width as nat, p.height as nat) == spec_output_dims(bytes@, bound as nat)
        }),
        (stage_decoded(bytes@) && !stage_buffer(bytes@)) ==> r.0.reason_view()
            == "decoded pixel buffer length mismatch"@,
        (stage_buffer(bytes@) && !stage_dims(bytes@, bound as nat)) ==> r.0.reason_view()
            == "computed target size is zero"@,
        (stage_dims(bytes@, bound as nat) && !stage_ready(bytes@, bound as nat))
            ==> r.0.reason_view() == ({
            let (buf, nw, nh) = encoder_input(bytes@, bound as nat);
            encode_reject(
                buf,
                nw,
                nh,
                spec_app_segments(bytes@),
                JPEG_QUALITY as nat,
            )->Some_0.spec_describe()
        }),
        (stage_ready(bytes@, bound as nat) && spec_encoded_output(bytes@, bound as nat) is None)
            ==> r.0.reason_view() == EncodeError::EncoderFailure.spec_describe(),
{
    match process_image(bytes, bound) {
        Ok(p) => (Outcome::Success { name }, Some(p)),
        Err(e) => {
            let reason = e.describe();
            (Outcome::Failure { name, reason }, None)
        },
    }
}

/// One named input of a batch, held in memory.
pub struct BatchItem {
    pub name: String,
    pub bytes: Vec<u8>,
}

/// Runs the pipeline over every item of a batch and collects one outcome per
/// item: each outcome is tagged with its own item's name, succeeds exactly
/// when its own item's bytes pass the pipeline and the compressor produces
/// its named output, and is decided by its own item alone, so a corrupt item
/// yields its one failure outcome and leaves every other item's outcome
/// exactly what it would have been.
#[verifier::loop_isolation(false)]
pub fn run_batch(items: &Vec<BatchItem>, bound: u32) -> (r: Vec<Outcome>)
    requires
        bound >= 1,
    ensures
        r@.len() == items@.len(),
        forall|i: int|
            0 <= i < items@.len() ==> (#[trigger] r@[i]).name_view() == items@[i].name@,
        forall|i: int|
            0 <= i < items@.len() ==> ((#[trigger] r@[i]) is Success <==> (stage_ready(
                items@[i].bytes@,
                bound as nat,
            ) && spec_encoded_output(items@[i].bytes@, bound as nat) is Some)),
{
    let mut out: Vec<Outcome> = Vec::new();
    let mut i: usize = 0;
    while i < items.len()
        invariant
            i <= items@.len(),
            out@.len() == i,
            forall|k: int| 0 <= k < i ==> (#[trigger] out@[k]).name_view() == items@[k].name@,
            forall|k: int|
                0 <= k < i ==> ((#[trigger] out@[k]) is Success <==> (stage_ready(
                    items@[k].bytes@,
                    bound as nat,
                ) && spec_encoded_output(items@[k].bytes@, bound as nat) is Some)),
        decreases items@.len() - i,
    {
        let item = &items[i];
        let (outcome, _encoded) = process_one(item.name.clone(), &item.bytes, bound);
        out.push(outcome);
        i += 1;
    }
    out
}

} // verus!
