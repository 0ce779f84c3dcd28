//! Choosing the system-audio capture device.
//!
//! System audio is captured from a loopback device: a PulseAudio/PipeWire
//! `monitor`, or a virtual device such as BlackHole or Soundflower.  The
//! application lists the input devices' names; this module picks the first
//! one whose name marks it as such a device.
use vstd::prelude::*;

verus! {

/// What `str::to_lowercase` gives for `s` (Unicode lowercase mapping).
pub uninterp spec fn lowercase_text(s: Seq<char>) -> Seq<char>;

/// `str::to_lowercase`; the mapping is Unicode's and is named, not stated.
#[verifier::external_body]
fn to_lowercase(s: &str) -> (r: String)
    ensures
        r@ == lowercase_text(s@),
{
    s.to_lowercase()
}

/// Whether `needle` occurs in `hay` at position `i`.
pub open spec fn occurs_at(hay: Seq<char>, needle: Seq<char>, i: int) -> bool {
    0 <= i && i + needle.len() <= hay.len() && hay.subrange(i, i + needle.len()) == needle
}

/// Whether `needle` occurs somewhere in `hay`.
pub open spec fn contains_seq(hay: Seq<char>, needle: Seq<char>) -> bool {
    exists|i: int| occurs_at(hay, needle, i)
}

/// Whether `needle` occurs in `hay` (`str::contains` with a string pattern).
pub fn contains_text(hay: &str, needle: &str) -> (b: bool)
    ensures
        b == contains_seq(hay@, needle@),
{
    let n: usize = hay.unicode_len();
    let m: usize = needle.unicode_len();
    if m > n {
        proof {
            assert forall|i: int| !occurs_at(hay@, needle@, i) by {}
        }
        return false;
    }
    let mut i: usize = 0;
    while i <= n - m
        invariant
            n == hay@.len(),
            m == needle@.len(),
            m <= n,
            i <= n - m + 1,
            forall|k: int| 0 <= k < i ==> !occurs_at(hay@, needle@, k),
        decreases n - m + 1 - i,
    {
        let mut j: usize = 0;
        while j < m && hay.get_char(i + j) == needle.get_char(j)
            invariant
                n == hay@.len(),
                m == needle@.len(),
                i + m <= n,
                j <= m,
                forall|k: int| 0 <= k < j ==> hay@[i + k] == needle@[k],
            decreases m - j,
        {
            j = j + 1;
        }
        if j == m {
            proof {
                assert(hay@.subrange(i as int, i + m) =~= needle@);
                assert(occurs_at(hay@, needle@, i as int));
            }
            return true;
        }
        proof {
            assert(hay@.subrange(i as int, i + m)[j as int] != needle@[j as int]);
        }
        i = i + 1;
    }
    proof {
        assert forall|k: int| !occurs_at(hay@, needle@, k) by {
            if occurs_at(hay@, needle@, k) {
                assert(0 <= k < i);
            }
        }
    }
    false
}

/// Whether a lowercased device name marks a loopback device.
pub open spec fn names_loopback(lower: Seq<char>) -> bool {
    ||| contains_seq(lower, "monitor"@)
    ||| contains_seq(lower, "loopback"@)
    ||| contains_seq(lower, "blackhole"@)
    ||| contains_seq(lower, "soundflower"@)
}

/// A lowercased device name marks a loopback device exactly when it
/// contains one of the four words `monitor`, `loopback`, `blackhole` or
/// `soundflower`; a name with none of them (such as "usb audio device") is
/// never taken for system audio.
pub proof fn law_loopback_words(lower: Seq<char>)
    ensures
        names_loopback(lower) <==> {
            ||| contains_seq(lower, "monitor"@)
            ||| contains_seq(lower, "loopback"@)
            ||| contains_seq(lower, "blackhole"@)
            ||| contains_seq(lower, "soundflower"@)
        },
{
    reveal_strlit("monitor");
    reveal_strlit("loopback");
    reveal_strlit("blackhole");
    reveal_strlit("soundflower");
}

/// Whether an input device with this name captures system audio: its
/// lowercased name contains `monitor`, `loopback`, `blackhole` or
/// `soundflower`.
pub fn is_system_audio_device(name: &str) -> (b: bool)
    ensures
        b == names_loopback(lowercase_text(name@)),
{
    let lower = to_lowercase(name);
    let l = lower.as_str();
    contains_text(l, "monitor") || contains_text(l, "loopback") || contains_text(l, "blackhole")
        || contains_text(l, "soundflower")
}

/// Whether a device whose name could be read (`Some`) is a loopback device;
/// a device whose name cannot be read is not chosen.
pub open spec fn device_matches(name: Option<Seq<char>>) -> bool {
    match name {
        Some(n) => names_loopback(lowercase_text(n)),
        None => false,
    }
}

/// The views of the listed device names.
pub open spec fn names_view(names: Seq<Option<String>>) -> Seq<Option<Seq<char>>> {
    names.map_values(|o: Option<String>| match o {
        Some(s) => Some(s@),
        None => None,
    })
}

/// The system-audio device among the input devices, given their names in
/// listing order (`None` where a name could not be read): the first loopback
/// device, if any.
pub fn choose_system_audio_device(names: &Vec<Option<String>>) -> (r: Option<usize>)
    ensures
        match r {
            Some(i) => i < names@.len() && device_matches(names_view(names@)[i as int])
                && forall|k: int| 0 <= k < i ==> !device_matches(#[trigger] names_view(names@)[k]),
            None => forall|k: int|
                0 <= k < names@.len() ==> !device_matches(#[trigger] names_view(names@)[k]),
        },
{
    let mut i: usize = 0;
    while i < names.len()
        invariant
            i <= names@.len(),
            forall|k: int| 0 <= k < i ==> !device_matches(#[trigger] names_view(names@)[k]),
        decreases names@.len() - i,
    {
        match &names[i] {
            Some(n) => {
                if is_system_audio_device(n.as_str()) {
                    return Some(i);
                }
            },
            None => {},
        }
        i = i + 1;
    }
    None
}

} // verus!
