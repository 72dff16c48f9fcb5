//! Reading the audio capture devices out of the encoder's device listing,
//! which it writes to its diagnostic stream.
//!
//! The listing has a line that opens the audio section and one that opens
//! the video section. Inside the audio section a device line carries the
//! capture-backend tag and ends with `[<index>] <name>`. Lines that fit no
//! pattern are skipped; nothing in the text makes the parse fail.
use crate::model::{devices_view, AudioDevice, AudioDeviceList};
use crate::text::{
    chars_of, contains, contains_in, parse_index, parse_index_in, trim, trim_range,
};
use vstd::prelude::*;

verus! {

/// The line that opens the audio section.
pub open spec fn audio_marker() -> Seq<char> {
    "AVFoundation audio devices:"@
}

/// The line that opens the video section, which ends the audio section.
pub open spec fn video_marker() -> Seq<char> {
    "AVFoundation video devices:"@
}

/// The tag that starts every line of the capture backend.
pub open spec fn indev_marker() -> Seq<char> {
    "[AVFoundation indev"@
}

/// Position of the last `c` in `s`, or -1.
pub open spec fn last_index_of(s: Seq<char>, c: char) -> int
    decreases s.len(),
{
    if s.len() == 0 {
        -1
    } else if s.last() == c {
        s.len() - 1
    } else {
        last_index_of(s.drop_last(), c)
    }
}

/// Position of the first `c` in `s`, or -1.
pub open spec fn first_index_of(s: Seq<char>, c: char) -> int
    decreases s.len(),
{
    if s.len() == 0 {
        -1
    } else if s[0] == c {
        0
    } else {
        let r = first_index_of(s.drop_first(), c);
        if r < 0 {
            -1
        } else {
            r + 1
        }
    }
}

/// The device that line `l` names: the text between its last `[` and the
/// `]` after it is the index, the trimmed rest of the line is the name,
/// which must not be empty.
pub open spec fn device_entry(l: Seq<char>) -> Option<(u32, Seq<char>)> {
    let open = last_index_of(l, '[');
    if open < 0 {
        None
    } else {
        let tail = l.subrange(open + 1, l.len() as int);
        let close = first_index_of(tail, ']');
        if close < 0 {
            None
        } else {
            match parse_index(tail.subrange(0, close)) {
                None => None,
                Some(idx) => {
                    let name = trim(tail.subrange(close + 1, tail.len() as int));
                    if name.len() == 0 {
                        None
                    } else {
                        Some((idx, name))
                    }
                },
            }
        }
    }
}

/// The lines of `s`, split at each `\n`; the last one is what follows the
/// last `\n` (possibly empty).
pub open spec fn lines(s: Seq<char>) -> Seq<Seq<char>>
    decreases s.len(),
{
    if s.len() == 0 {
        seq![Seq::empty()]
    } else {
        let prev = lines(s.drop_last());
        if s.last() == '\n' {
            prev.push(Seq::empty())
        } else {
            prev.update(prev.len() - 1, prev.last().push(s.last()))
        }
    }
}

/// Parser state after a line: whether the audio section is open, and the
/// devices found so far.
pub open spec fn scan_line(st: (bool, Seq<(u32, Seq<char>)>), l: Seq<char>) -> (
    bool,
    Seq<(u32, Seq<char>)>,
) {
    if contains(l, audio_marker()) {
        (true, st.1)
    } else {
        let open = st.0 && !contains(l, video_marker());
        if open && contains(l, indev_marker()) {
            match device_entry(l) {
                Some(d) => (open, st.1.push(d)),
                None => (open, st.1),
            }
        } else {
            (open, st.1)
        }
    }
}

/// Parser state after the lines `ls`, starting outside the audio section.
pub open spec fn scan_lines(ls: Seq<Seq<char>>) -> (bool, Seq<(u32, Seq<char>)>)
    decreases ls.len(),
{
    if ls.len() == 0 {
        (false, Seq::empty())
    } else {
        scan_line(scan_lines(ls.drop_last()), ls.last())
    }
}

/// The audio devices that the listing `t` names, in the order it names them.
pub open spec fn audio_devices_of(t: Seq<char>) -> Seq<(u32, Seq<char>)> {
    scan_lines(lines(t)).1
}

/// The device that `v[lo..hi]` names: its index and the bounds of its name.
fn device_in_line(v: &Vec<char>, lo: usize, hi: usize) -> (r: Option<(u32, usize, usize)>)
    requires
        lo <= hi <= v.len(),
    ensures
        match r {
            None => device_entry(v@.subrange(lo as int, hi as int)) is None,
            Some((idx, a, b)) => lo <= a <= b <= hi && device_entry(
                v@.subrange(lo as int, hi as int),
            ) == Some((idx, v@.subrange(a as int, b as int))),
        },
{
    let ghost line = v@.subrange(lo as int, hi as int);
    let mut j: usize = hi;
    while j > lo && v[j - 1] != '['
        invariant
            lo <= j <= hi,
            hi <= v.len(),
            last_index_of(line, '[') == last_index_of(v@.subrange(lo as int, j as int), '['),
        decreases j - lo,
    {
        assert(v@.subrange(lo as int, j as int).drop_last() =~= v@.subrange(lo as int, j - 1));
        j -= 1;
    }
    if j == lo {
        return None;
    }
    assert(last_index_of(line, '[') == j - 1 - lo);
    let ghost tail = line.subrange(j - lo, line.len() as int);
    assert(tail =~= v@.subrange(j as int, hi as int));
    let mut k: usize = j;
    while k < hi && v[k] != ']'
        invariant
            j <= k <= hi,
            hi <= v.len(),
            first_index_of(tail, ']') == (if first_index_of(
                v@.subrange(k as int, hi as int),
                ']',
            ) < 0 {
                -1
            } else {
                first_index_of(v@.subrange(k as int, hi as int), ']') + (k - j)
            }),
        decreases hi - k,
    {
        assert(v@.subrange(k as int, hi as int).drop_first() =~= v@.subrange(k + 1, hi as int));
        k += 1;
    }
    if k == hi {
        return None;
    }
    assert(first_index_of(tail, ']') == k - j);
    assert(tail.subrange(0, k - j) =~= v@.subrange(j as int, k as int));
    assert(tail.subrange(k - j + 1, tail.len() as int) =~= v@.subrange(k + 1, hi as int));
    match parse_index_in(v, j, k) {
        None => None,
        Some(idx) => {
            let (a, b) = trim_range(v, k + 1, hi);
            if a == b {
                None
            } else {
                Some((idx, a, b))
            }
        },
    }
}

/// The markers, held as characters.
struct Markers {
    audio: Vec<char>,
    video: Vec<char>,
    indev: Vec<char>,
}

impl Markers {
    spec fn wf(&self) -> bool {
        &&& self.audio@ == audio_marker()
        &&& self.video@ == video_marker()
        &&& self.indev@ == indev_marker()
    }

    fn new() -> (r: Markers)
        ensures
            r.wf(),
    {
        Markers {
            audio: chars_of("AVFoundation audio devices:"),
            video: chars_of("AVFoundation video devices:"),
            indev: chars_of("[AVFoundation indev"),
        }
    }
}

/// Applies line `v[lo..hi]` of `t` to the parser state.
fn scan_line_exec(
    t: &str,
    v: &Vec<char>,
    m: &Markers,
    lo: usize,
    hi: usize,
    in_audio: bool,
    devices: &mut Vec<AudioDevice>,
) -> (r: bool)
    requires
        t@ == v@,
        m.wf(),
        lo <= hi <= v.len(),
    ensures
        (r, devices_view(final(devices)@)) == scan_line(
            (in_audio, devices_view(old(devices)@)),
            v@.subrange(lo as int, hi as int),
        ),
{
    if contains_in(v, lo, hi, &m.audio) {
        return true;
    }
    let open = in_audio && !contains_in(v, lo, hi, &m.video);
    if open && contains_in(v, lo, hi, &m.indev) {
        match device_in_line(v, lo, hi) {
            Some((index, a, b)) => {
                let name = String::from_str(t.substring_char(a, b));
                let ghost before = devices@;
                devices.push(AudioDevice { index, name });
                assert(devices_view(devices@) =~= devices_view(before).push((index, name@)));
            },
            None => {},
        }
    }
    open
}

/// The audio devices named in an encoder device listing, in listing order.
/// A listing without an audio section gives an empty list.
pub fn parse_audio_devices(transcript: &str) -> (r: AudioDeviceList)
    ensures
        r@ == audio_devices_of(transcript@),
{
    let v = chars_of(transcript);
    let m = Markers::new();
    let mut in_audio = false;
    let mut devices: Vec<AudioDevice> = Vec::new();
    let mut start: usize = 0;
    let mut i: usize = 0;
    assert(devices_view(devices@) =~= Seq::empty());
    assert(v@.subrange(0, 0) =~= Seq::<char>::empty());
    assert(lines(Seq::<char>::empty()).drop_last() =~= Seq::<Seq<char>>::empty());
    while i < v.len()
        invariant
            transcript@ == v@,
            m.wf(),
            start <= i <= v.len(),
            lines(v@.subrange(0, i as int)).len() >= 1,
            lines(v@.subrange(0, i as int)).last() == v@.subrange(start as int, i as int),
            scan_lines(lines(v@.subrange(0, i as int)).drop_last()) == (
                in_audio,
                devices_view(devices@),
            ),
        decreases v.len() - i,
    {
        let ghost prev = lines(v@.subrange(0, i as int));
        assert(v@.subrange(0, i + 1).drop_last() =~= v@.subrange(0, i as int));
        if v[i] == '\n' {
            in_audio = scan_line_exec(transcript, &v, &m, start, i, in_audio, &mut devices);
            assert(lines(v@.subrange(0, i + 1)).drop_last() =~= prev);
            assert(prev =~= prev.drop_last().push(prev.last()));
            start = i + 1;
            assert(v@.subrange(start as int, i + 1) =~= Seq::<char>::empty());
        } else {
            assert(lines(v@.subrange(0, i + 1)).drop_last() =~= prev.drop_last());
            assert(v@.subrange(start as int, i + 1) =~= v@.subrange(start as int, i as int).push(
                v[i as int],
            ));
        }
        i += 1;
    }
    scan_line_exec(transcript, &v, &m, start, v.len(), in_audio, &mut devices);
    assert(v@.subrange(0, v.len() as int) =~= v@);
    let ghost ls = lines(v@);
    assert(ls =~= ls.drop_last().push(ls.last()));
    AudioDeviceList { devices }
}

/// Lines that never open the audio section leave the parser outside it
/// with no devices.
proof fn lemma_scan_without_marker(ls: Seq<Seq<char>>)
    requires
        forall|i: int| 0 <= i < ls.len() ==> !contains(#[trigger] ls[i], audio_marker()),
    ensures
        scan_lines(ls) == (false, Seq::<(u32, Seq<char>)>::empty()),
    decreases ls.len(),
{
    if ls.len() > 0 {
        let pre = ls.drop_last();
        assert forall|i: int| 0 <= i < pre.len() implies !contains(
            #[trigger] pre[i],
            audio_marker(),
        ) by {
            assert(pre[i] == ls[i]);
        }
        lemma_scan_without_marker(pre);
        assert(!contains(ls[ls.len() - 1], audio_marker()));
    }
}

/// A listing in which no line holds the audio section marker names no
/// audio devices: the parse gives an empty list, not a failure.
pub proof fn lemma_no_audio_section(t: Seq<char>)
    requires
        forall|i: int| 0 <= i < lines(t).len() ==> !contains(#[trigger] lines(t)[i], audio_marker()),
    ensures
        audio_devices_of(t) == Seq::<(u32, Seq<char>)>::empty(),
{
    lemma_scan_without_marker(lines(t));
}

} // verus!
