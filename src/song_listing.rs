use vstd::prelude::*;
use vstd::string::StringExecFns;
use vstd::string::to_string_from_display_ensures;

use rand::Rng;

verus! {

/// The lowest tempo a random listing gets.
pub const RANDOM_BPM_MIN: u16 = 1;

/// The highest tempo a random listing gets, and the highest song number of a
/// random title.
pub const RANDOM_MAX: u16 = 300;

/// Relies on rand's `thread_rng` and `Rng::gen_range` over an inclusive
/// range: a value between `lo` and `hi`, both included. `gen_range` panics on
/// an empty range, which `requires` leaves out.
#[verifier::external_body]
fn random_between(lo: u16, hi: u16) -> (r: u16)
    requires
        lo <= hi,
    ensures
        lo <= r <= hi,
{
    rand::thread_rng().gen_range(lo..=hi)
}

/// A song's tempo in beats per minute. A tempo is never zero.
#[derive(Debug, Clone, Copy, PartialEq, Eq, Structural)]
pub enum BPM {
    Number(u16),
}

impl BPM {
    pub open spec fn value(self) -> u16 {
        match self {
            BPM::Number(n) => n,
        }
    }

    pub open spec fn wf(self) -> bool {
        self.value() > 0
    }

    /// A tempo drawn at random from 1 to 300 beats per minute.
    pub fn random() -> (r: BPM)
        ensures
            r.wf(),
            RANDOM_BPM_MIN <= r.value() <= RANDOM_MAX,
    {
        BPM::Number(random_between(RANDOM_BPM_MIN, RANDOM_MAX))
    }
}

/// The characters that start a random song title.
pub open spec fn random_title_prefix() -> Seq<char> {
    seq!['S', 'o', 'n', 'g', ' ']
}

/// A song's title and tempo as mathematical values.
pub struct SongModel {
    pub title: Seq<char>,
    pub bpm: BPM,
}

/// A song as it is stored in a song list: a title and a tempo.
#[derive(Debug)]
pub struct FileSongListing {
    title: String,
    bpm: BPM,
}

impl View for FileSongListing {
    type V = SongModel;

    closed spec fn view(&self) -> SongModel {
        SongModel { title: self.title@, bpm: self.bpm }
    }
}

impl Clone for FileSongListing {
    fn clone(&self) -> (r: FileSongListing)
        ensures
            r@ == self@,
    {
        proof {
            use_type_invariant(self);
        }
        FileSongListing { title: self.title.clone(), bpm: self.bpm }
    }
}

impl FileSongListing {
    /// A listing's tempo is never zero.
    #[verifier::type_invariant]
    spec fn tempo_is_set(self) -> bool {
        self.bpm.wf()
    }

    pub fn new(title: String, bpm: BPM) -> (r: FileSongListing)
        requires
            bpm.wf(),
        ensures
            r@ == (SongModel { title: title@, bpm }),
    {
        FileSongListing { title, bpm }
    }

    /// A listing titled "Song " and a number from 1 to 300, with a random
    /// tempo.
    pub fn random() -> (r: FileSongListing)
        ensures
            r@.bpm.wf(),
            RANDOM_BPM_MIN <= r@.bpm.value() <= RANDOM_MAX,
            exists|n: u16, digits: String|
                1 <= n <= RANDOM_MAX && to_string_from_display_ensures::<u16>(&n, digits)
                    && r@.title == random_title_prefix() + digits@,
    {
        let n = random_between(1, RANDOM_MAX);
        let digits = n.to_string();
        proof {
            reveal_strlit("Song ");
        }
        let title = String::from_str("Song ").concat(digits.as_str());
        assert(title@ == random_title_prefix() + digits@);
        FileSongListing { title, bpm: BPM::random() }
    }

    pub fn title(&self) -> (r: &str)
        ensures
            r@ == self@.title,
    {
        self.title.as_str()
    }

    pub fn bpm(&self) -> (r: BPM)
        ensures
            r == self@.bpm,
            r.wf(),
    {
        proof {
            use_type_invariant(self);
        }
        self.bpm
    }
}

} // verus!
