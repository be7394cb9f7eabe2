//! Event sounds: which event is chiming, and the file that a chime is.
use vstd::prelude::*;

verus! {

/// Which event is chiming; selects the built-in melody when the user set no
/// sound file.
#[derive(Clone, Copy, PartialEq, Eq, Structural, Debug)]
pub enum Event {
    DownloadComplete,
    DownloadFailed,
    QueueStarted,
    QueueStopped,
}

impl Event {
    pub open spec fn at(i: int) -> Event {
        if i == 1 {
            Event::DownloadFailed
        } else if i == 2 {
            Event::QueueStarted
        } else if i == 3 {
            Event::QueueStopped
        } else {
            Event::DownloadComplete
        }
    }

    /// The event of a row of the sounds page.
    pub fn from_index(i: usize) -> (r: Event)
        ensures
            r == Event::at(i as int),
    {
        if i == 1 {
            Event::DownloadFailed
        } else if i == 2 {
            Event::QueueStarted
        } else if i == 3 {
            Event::QueueStopped
        } else {
            Event::DownloadComplete
        }
    }
}

// ------------------------------------------------------------------- the file

/// Samples per second.
pub const RATE: u32 = 44_100;

/// A number in the lower byte first order, in `n` bytes.
pub open spec fn little(v: int, n: nat) -> Seq<u8>
    decreases n,
{
    if n == 0 {
        seq![]
    } else {
        seq![(v % 256) as u8] + little(v / 256, (n - 1) as nat)
    }
}

/// The two bytes of a sample.
pub open spec fn sample_bytes(v: i16) -> Seq<u8> {
    little(
        if v < 0 {
            v + 65536
        } else {
            v as int
        },
        2,
    )
}

pub open spec fn samples_bytes(v: Seq<i16>) -> Seq<u8>
    decreases v.len(),
{
    if v.len() == 0 {
        seq![]
    } else {
        samples_bytes(v.drop_last()) + sample_bytes(v.last())
    }
}

/// The head of a file with `n` bytes of samples: one channel of sixteen bits.
pub open spec fn wav_head(n: int) -> Seq<u8> {
    seq![0x52u8, 0x49, 0x46, 0x46] + little(36 + n, 4) + seq![
        0x57u8,
        0x41,
        0x56,
        0x45,
        0x66,
        0x6d,
        0x74,
        0x20,
    ] + little(16, 4) + little(1, 2) + little(1, 2) + little(RATE as int, 4) + little(
        RATE as int * 2,
        4,
    ) + little(2, 2) + little(16, 2) + seq![0x64u8, 0x61, 0x74, 0x61] + little(n, 4)
}

/// A sound file of these samples.
pub open spec fn wav(v: Seq<i16>) -> Seq<u8> {
    wav_head(2 * v.len() as int) + samples_bytes(v)
}

fn put_two(out: &mut Vec<u8>, v: u16)
    ensures
        final(out)@ == old(out)@ + little(v as int, 2),
{
    let ghost before = out@;
    out.push((v % 256) as u8);
    out.push((v / 256) as u8);
    proof {
        reveal_with_fuel(little, 3);
        assert(out@ =~= before + little(v as int, 2));
    }
}

fn put_four(out: &mut Vec<u8>, v: u32)
    ensures
        final(out)@ == old(out)@ + little(v as int, 4),
{
    let ghost before = out@;
    out.push((v % 256) as u8);
    out.push((v / 256 % 256) as u8);
    out.push((v / 65536 % 256) as u8);
    out.push((v / 16777216) as u8);
    proof {
        reveal_with_fuel(little, 5);
        let i = v as int;
        assert(i / 256 / 256 == i / 65536);
        assert(i / 256 / 256 / 256 == i / 16777216);
        assert(out@ =~= before + little(i, 4));
    }
}

fn put_tag(out: &mut Vec<u8>, a: u8, b: u8, c: u8, d: u8)
    ensures
        final(out)@ == old(out)@ + seq![a, b, c, d],
{
    let ghost before = out@;
    out.push(a);
    out.push(b);
    out.push(c);
    out.push(d);
    assert(out@ =~= before + seq![a, b, c, d]);
}

fn put_head(n: u32) -> (out: Vec<u8>)
    requires
        n <= u32::MAX - 36,
    ensures
        out@ == wav_head(n as int),
{
    let mut out: Vec<u8> = Vec::new();
    put_tag(&mut out, 0x52, 0x49, 0x46, 0x46);
    put_four(&mut out, 36 + n);
    put_tag(&mut out, 0x57, 0x41, 0x56, 0x45);
    put_tag(&mut out, 0x66, 0x6d, 0x74, 0x20);
    put_four(&mut out, 16);
    put_two(&mut out, 1);
    put_two(&mut out, 1);
    put_four(&mut out, RATE);
    put_four(&mut out, 88_200);
    put_two(&mut out, 2);
    put_two(&mut out, 16);
    put_tag(&mut out, 0x64, 0x61, 0x74, 0x61);
    put_four(&mut out, n);
    assert(out@ =~= wav_head(n as int));
    out
}

/// The samples of a melody as a sound file in memory.
pub fn wav_file(samples: &Vec<i16>) -> (out: Vec<u8>)
    requires
        2 * samples@.len() + 36 <= u32::MAX,
    ensures
        out@ == wav(samples@),
{
    let n: u32 = (samples.len() * 2) as u32;
    let mut out = put_head(n);
    let ghost head = out@;
    let mut i: usize = 0;
    assert(samples@.take(0) =~= seq![]);
    assert(out@ =~= head + samples_bytes(samples@.take(0)));
    while i < samples.len()
        invariant
            i <= samples@.len(),
            out@ == head + samples_bytes(samples@.take(i as int)),
        decreases samples.len() - i,
    {
        proof {
            assert(samples@.take(i + 1).drop_last() =~= samples@.take(i as int));
            assert(samples@.take(i + 1).last() == samples@[i as int]);
        }
        let v = samples[i];
        let wide: i32 = v as i32;
        let u: u16 = if wide < 0 {
            (wide + 65536) as u16
        } else {
            wide as u16
        };
        put_two(&mut out, u);
        assert(out@ =~= head + (samples_bytes(samples@.take(i as int)) + sample_bytes(v)));
        i += 1;
    }
    assert(samples@.take(i as int) =~= samples@);
    out
}

// ------------------------------------------------------------------------- laws

proof fn lemma_little_len(v: int, n: nat)
    ensures
        little(v, n).len() == n,
    decreases n,
{
    if n > 0 {
        lemma_little_len(v / 256, (n - 1) as nat);
    }
}

proof fn lemma_samples_len(v: Seq<i16>)
    ensures
        samples_bytes(v).len() == 2 * v.len(),
    decreases v.len(),
{
    if v.len() > 0 {
        lemma_samples_len(v.drop_last());
        lemma_little_len(
            if v.last() < 0 {
                v.last() + 65536
            } else {
                v.last() as int
            },
            2,
        );
    }
}

/// A sound file has a head of forty-four bytes and two bytes for each sample,
/// which is what the head says of it.
pub proof fn a_sound_file_is_as_long_as_its_head_says(v: Seq<i16>)
    ensures
        wav(v).len() == 44 + 2 * v.len(),
{
    lemma_samples_len(v);
    let n = 2 * v.len() as int;
    lemma_little_len(36 + n, 4);
    lemma_little_len(16, 4);
    lemma_little_len(1, 2);
    lemma_little_len(RATE as int, 4);
    lemma_little_len(RATE as int * 2, 4);
    lemma_little_len(2, 2);
    lemma_little_len(16, 2);
    lemma_little_len(n, 4);
}

} // verus!
