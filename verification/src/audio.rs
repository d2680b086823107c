//! Audio device enumeration. The unverified shell queries the host audio
//! subsystem and hands over, for each endpoint, its name or nothing when
//! the name could not be read; enumeration is maximally best-effort, so a
//! nameless device is reported under a placeholder rather than dropped,
//! and one bad entry never aborts the others.

use vstd::prelude::*;

verus! {

/// The enumerable audio endpoints: input and output device names and the
/// platform-designated default of each direction, when there is one.
#[derive(Clone, Debug, PartialEq, Eq)]
pub struct AudioDevices {
    pub inputs: Vec<String>,
    pub outputs: Vec<String>,
    pub default_input: Option<String>,
    pub default_output: Option<String>,
}

/// Each name kept as read, and every unreadable one replaced by the
/// placeholder — never omitted.
pub open spec fn named_or_unknown(names: Seq<Option<Seq<char>>>) -> Seq<Seq<char>> {
    names.map_values(
        |o: Option<Seq<char>>|
            match o {
                Some(n) => n,
                None => "Unknown"@,
            },
    )
}

/// Replace each unreadable device name by the placeholder, keeping every
/// entry and the enumeration order.
pub fn fill_unknown(names: Vec<Option<String>>) -> (r: Vec<String>)
    ensures
        r.deep_view() == named_or_unknown(names.deep_view()),
{
    let ghost model = named_or_unknown(names.deep_view());
    let mut out: Vec<String> = Vec::new();
    let mut i: usize = 0;
    proof {
        assert(out.deep_view() =~= model.take(0));
    }
    while i < names.len()
        invariant
            0 <= i <= names@.len(),
            out.deep_view() =~= model.take(i as int),
            model == named_or_unknown(names.deep_view()),
        decreases names@.len() - i,
    {
        let entry: String = match &names[i] {
            Some(n) => n.clone(),
            None => String::from_str("Unknown"),
        };
        proof {
            assert(names.deep_view()[i as int] == names@[i as int].deep_view());
            assert(entry@ == model[i as int]);
        }
        out.push(entry);
        proof {
            assert(out.deep_view().drop_last() =~= model.take(i as int));
            assert(out.deep_view() =~= model.take(i as int + 1));
        }
        i = i + 1;
    }
    proof {
        assert(model.take(names@.len() as int) =~= model);
    }
    out
}

/// Assemble the audio device record from what the host audio subsystem
/// reported: every enumerated endpoint appears, unreadable names as the
/// placeholder, and the defaults are passed through unchanged.
pub fn list_audio_devices(
    inputs: Vec<Option<String>>,
    outputs: Vec<Option<String>>,
    default_input: Option<String>,
    default_output: Option<String>,
) -> (r: AudioDevices)
    ensures
        r.inputs.deep_view() == named_or_unknown(inputs.deep_view()),
        r.outputs.deep_view() == named_or_unknown(outputs.deep_view()),
        r.default_input == default_input,
        r.default_output == default_output,
{
    let ins = fill_unknown(inputs);
    let outs = fill_unknown(outputs);
    AudioDevices { inputs: ins, outputs: outs, default_input, default_output }
}

} // verus!
