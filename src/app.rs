//! The application's state: the seed list kept in step with the seed file,
//! and the decisions of the poll loop and of wallet generation. Reading and
//! writing the file, the clocks and the terminal are the caller's part: each
//! method takes what they gave as plain values.
use vstd::prelude::*;
use crate::codec::{encode, hex_of};
use crate::store::{load, lines_view, load_spec, seeds_view, StoreError};
use crate::wallet::{address_of, derive_address};

verus! {

/// Least time, in milliseconds, between two looks at the seed file.
pub const POLL_INTERVAL_MS: u64 = 100;

/// A file modification time: seconds and nanoseconds since the Unix epoch.
#[derive(Debug, Clone, Copy, PartialEq, Eq, Structural)]
pub struct Stamp {
    pub secs: u64,
    pub nanos: u32,
}

/// A wallet that has been generated and still has to be written to the file.
pub struct NewWallet {
    /// The seed that identifies it.
    pub seed: [u8; 32],
    /// Its address, to show.
    pub address: String,
    /// The line that records it in the file, without the line terminator.
    pub record: String,
}

/// The application state.
pub struct App {
    /// Is the application running?
    running: bool,
    /// Has a wallet been generated and recorded?
    button_pressed: bool,
    /// The seeds of the file, in the order of its lines.
    seeds: Vec<[u8; 32]>,
    /// When the file was last looked at, in milliseconds of a monotonic clock.
    last_check: Option<u64>,
    /// Path of the seed file.
    keys_path: String,
    /// The file's modification time when it was last read or written here.
    last_modified: Option<Stamp>,
}

/// The state of an [`App`] as plain values.
pub struct AppView {
    pub running: bool,
    pub button_pressed: bool,
    pub seeds: Seq<Seq<u8>>,
    pub last_check: Option<u64>,
    pub keys_path: Seq<char>,
    pub last_modified: Option<Stamp>,
}

impl View for App {
    type V = AppView;

    closed spec fn view(&self) -> AppView {
        AppView {
            running: self.running,
            button_pressed: self.button_pressed,
            seeds: seeds_view(self.seeds@),
            last_check: self.last_check,
            keys_path: self.keys_path@,
            last_modified: self.last_modified,
        }
    }
}

/// Whether the file is due for a look at time `now`, given the time of the
/// last look. A clock that seems to go back counts as no time elapsed.
pub open spec fn poll_is_due(last: Option<u64>, now: u64) -> bool {
    match last {
        None => true,
        Some(t) => now >= t && now - t >= POLL_INTERVAL_MS,
    }
}

/// Whether an observed modification time calls for a read of the file: the
/// file exists and was never seen, or its time differs from the watermark.
pub open spec fn needs_reload(watermark: Option<Stamp>, observed: Option<Stamp>) -> bool {
    match observed {
        None => false,
        Some(t) => watermark != Some(t),
    }
}

/// The watermark after a look at the file.
pub open spec fn next_watermark(watermark: Option<Stamp>, observed: Option<Stamp>) -> Option<
    Stamp,
> {
    if needs_reload(watermark, observed) {
        observed
    } else {
        watermark
    }
}

/// Relies on rand's `OsRng::try_fill_bytes`: 32 bytes from the operating
/// system's secure source, or nothing where that source failed.
#[verifier::external_body]
fn os_seed() -> (r: Option<[u8; 32]>) {
    let mut seed = [0u8; 32];
    match rand::TryRngCore::try_fill_bytes(&mut rand::rngs::OsRng, &mut seed) {
        Ok(()) => Some(seed),
        Err(_) => None,
    }
}

/// The wallet of a seed drawn from the entropy source, if one was drawn.
/// Without a seed there is nothing to write.
pub fn wallet_from_entropy(entropy: Option<[u8; 32]>) -> (r: Option<NewWallet>)
    ensures
        r is Some <==> entropy is Some,
        r matches Some(w) ==> w.seed == entropy->0 && w.address@ == address_of(w.seed@)
            && w.record@ == hex_of(w.seed@),
{
    match entropy {
        None => None,
        Some(seed) => {
            let address = derive_address(&seed);
            let record = encode(&seed);
            Some(NewWallet { seed, address, record })
        },
    }
}

impl App {
    /// A running application over `./keys.txt`, with no seeds read yet.
    pub fn new() -> (r: Self)
        ensures
            r@.running,
            !r@.button_pressed,
            r@.seeds.len() == 0,
            r@.last_check is None,
            r@.keys_path == "./keys.txt"@,
            r@.last_modified is None,
    {
        let r = App {
            running: true,
            button_pressed: false,
            seeds: Vec::new(),
            last_check: None,
            keys_path: "./keys.txt".to_owned(),
            last_modified: None,
        };
        assert(seeds_view(r.seeds@) =~= Seq::<Seq<u8>>::empty());
        r
    }

    /// Is the application running?
    pub fn running(&self) -> (r: bool)
        ensures
            r == self@.running,
    {
        self.running
    }

    /// Has a wallet been generated and recorded?
    pub fn button_pressed(&self) -> (r: bool)
        ensures
            r == self@.button_pressed,
    {
        self.button_pressed
    }

    /// The seeds, in the order of the file's lines.
    pub fn seeds(&self) -> (r: &Vec<[u8; 32]>)
        ensures
            seeds_view(r@) == self@.seeds,
    {
        &self.seeds
    }

    /// Path of the seed file.
    pub fn keys_path(&self) -> (r: &str)
        ensures
            r@ == self@.keys_path,
    {
        self.keys_path.as_str()
    }

    /// Stops the application.
    pub fn quit(&mut self)
        ensures
            !final(self)@.running,
            final(self)@.button_pressed == old(self)@.button_pressed,
            final(self)@.seeds == old(self)@.seeds,
            final(self)@.last_check == old(self)@.last_check,
            final(self)@.keys_path == old(self)@.keys_path,
            final(self)@.last_modified == old(self)@.last_modified,
    {
        self.running = false;
    }

    /// Whether the file is due for a look at time `now` (milliseconds of a
    /// monotonic clock). When it is, `now` is noted as the time of this
    /// look, whatever the look then finds.
    pub fn poll_due(&mut self, now: u64) -> (r: bool)
        ensures
            r == poll_is_due(old(self)@.last_check, now),
            final(self)@.last_check == (if r {
                Some(now)
            } else {
                old(self)@.last_check
            }),
            final(self)@.running == old(self)@.running,
            final(self)@.button_pressed == old(self)@.button_pressed,
            final(self)@.seeds == old(self)@.seeds,
            final(self)@.keys_path == old(self)@.keys_path,
            final(self)@.last_modified == old(self)@.last_modified,
    {
        let due = match self.last_check {
            None => true,
            Some(t) => now >= t && now - t >= POLL_INTERVAL_MS,
        };
        if due {
            self.last_check = Some(now);
        }
        due
    }

    /// Takes note of the file's modification time (`None` where there is no
    /// file) and says whether the file has to be read again. The watermark
    /// moves to the observed time when it does.
    pub fn observe_modified(&mut self, observed: Option<Stamp>) -> (r: bool)
        ensures
            r == needs_reload(old(self)@.last_modified, observed),
            final(self)@.last_modified == next_watermark(old(self)@.last_modified, observed),
            final(self)@.running == old(self)@.running,
            final(self)@.button_pressed == old(self)@.button_pressed,
            final(self)@.seeds == old(self)@.seeds,
            final(self)@.last_check == old(self)@.last_check,
            final(self)@.keys_path == old(self)@.keys_path,
    {
        let reload = match observed {
            None => false,
            Some(t) => match self.last_modified {
                None => true,
                Some(w) => w != t,
            },
        };
        if reload {
            self.last_modified = observed;
        }
        reload
    }

    /// Adopts what a read of the seed file gave: its lines, or `None` where
    /// there is no file. On any failure, of the read or of a line, the
    /// seeds stay as they were.
    pub fn load_seeds(&mut self, file: Result<Option<Vec<String>>, StoreError>) -> (r: Result<
        (),
        StoreError,
    >)
        ensures
            match file {
                Err(e) => r == Err::<(), StoreError>(e) && final(self)@.seeds == old(self)@.seeds,
                Ok(None) => r is Ok && final(self)@.seeds.len() == 0,
                Ok(Some(lines)) => match load_spec(lines_view(lines@)) {
                    Some(s) => r is Ok && final(self)@.seeds == s,
                    None => r == Err::<(), StoreError>(StoreError::InvalidData)
                        && final(self)@.seeds == old(self)@.seeds,
                },
            },
            final(self)@.running == old(self)@.running,
            final(self)@.button_pressed == old(self)@.button_pressed,
            final(self)@.last_check == old(self)@.last_check,
            final(self)@.keys_path == old(self)@.keys_path,
            final(self)@.last_modified == old(self)@.last_modified,
    {
        let loaded = match &file {
            Err(e) => Err(*e),
            Ok(None) => load(None),
            Ok(Some(lines)) => load(Some(lines)),
        };
        match loaded {
            Ok(seeds) => {
                self.seeds = seeds;
                Ok(())
            },
            Err(e) => Err(e),
        }
    }

    /// A new wallet from the operating system's entropy source, or `None`
    /// where that source failed.
    pub fn generate_random_wallet() -> (r: Option<NewWallet>)
        ensures
            r matches Some(w) ==> w.address@ == address_of(w.seed@) && w.record@ == hex_of(
                w.seed@,
            ),
    {
        wallet_from_entropy(os_seed())
    }

    /// Takes note of how the append of a seed's record to the file went:
    /// on success the seed joins the list, and the file's new modification
    /// time, where it could be read, becomes the watermark, so that this
    /// write is not taken for another's. On failure nothing changes.
    pub fn record_saved(&mut self, seed: [u8; 32], saved: Result<Option<Stamp>, StoreError>) -> (r:
        Result<(), StoreError>)
        ensures
            r == match saved {
                Ok(_) => Ok::<(), StoreError>(()),
                Err(e) => Err(e),
            },
            match saved {
                Ok(stamp) => final(self)@.seeds == old(self)@.seeds.push(seed@)
                    && final(self)@.button_pressed && final(self)@.last_modified == (match stamp {
                    Some(t) => Some(t),
                    None => old(self)@.last_modified,
                }),
                Err(_) => final(self)@.seeds == old(self)@.seeds && final(self)@.button_pressed
                    == old(self)@.button_pressed && final(self)@.last_modified == old(
                    self,
                )@.last_modified,
            },
            final(self)@.running == old(self)@.running,
            final(self)@.last_check == old(self)@.last_check,
            final(self)@.keys_path == old(self)@.keys_path,
    {
        match saved {
            Ok(stamp) => {
                let ghost prev = self.seeds@;
                self.seeds.push(seed);
                assert(seeds_view(self.seeds@) =~= seeds_view(prev).push(seed@));
                self.button_pressed = true;
                if let Some(t) = stamp {
                    self.last_modified = Some(t);
                }
                Ok(())
            },
            Err(e) => Err(e),
        }
    }

    /// The address of each wallet, in the order of the seeds.
    pub fn wallet_addresses(&self) -> (r: Vec<String>)
        ensures
            r@.len() == self@.seeds.len(),
            forall|k: int| 0 <= k < r@.len() ==> #[trigger] r@[k]@ == address_of(self@.seeds[k]),
    {
        let mut r: Vec<String> = Vec::new();
        let mut i: usize = 0;
        while i < self.seeds.len()
            invariant
                i <= self.seeds@.len(),
                r@.len() == i,
                forall|k: int| 0 <= k < i ==> #[trigger] r@[k]@ == address_of(self.seeds@[k]@),
            decreases self.seeds.len() - i,
        {
            r.push(derive_address(&self.seeds[i]));
            i = i + 1;
        }
        r
    }
}

/// Two looks at an unchanged file in a row read it at most once: after the
/// first, the watermark equals what the second observes.
pub proof fn lemma_watermark_stable(watermark: Option<Stamp>, observed: Option<Stamp>)
    ensures
        !needs_reload(next_watermark(watermark, observed), observed),
{
}

} // verus!
