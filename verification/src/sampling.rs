use crate::error::GachaError;
use vstd::bytes::{spec_u64_to_le_bytes, u64_to_le_bytes};
use vstd::prelude::*;

verus! {

/// The number of ChaCha rounds behind every random word.
pub const ROUNDS: u8 = 254;

/// The 32-bit word that four bytes spell, lowest byte first.
pub open spec fn le_word(bytes: Seq<u8>, at: int) -> u32 {
    (bytes[at] + 0x100 * bytes[at + 1] + 0x1_0000 * bytes[at + 2] + 0x100_0000 * bytes[at
        + 3]) as u32
}

/// The sixteen words from which a ChaCha key stream starts: the four words
/// of `expand 32-byte k`, the eight words of the key, a zero block counter
/// of two words, and the two words of the nonce.
pub open spec fn initial_state(key: Seq<u8>, nonce: Seq<u8>) -> Seq<u32> {
    seq![
        0x6170_7865u32,
        0x3320_646eu32,
        0x7962_2d32u32,
        0x6b20_6574u32,
        le_word(key, 0),
        le_word(key, 4),
        le_word(key, 8),
        le_word(key, 12),
        le_word(key, 16),
        le_word(key, 20),
        le_word(key, 24),
        le_word(key, 28),
        0u32,
        0u32,
        le_word(nonce, 0),
        le_word(nonce, 4),
    ]
}

/// `nanorand::crypto::chacha::chacha_init` lays a 32-byte key and an
/// 8-byte nonce out as the sixteen words of `initial_state`. It reads each
/// word lowest byte first and starts the block counter at zero.
pub assume_specification[ nanorand::crypto::chacha::chacha_init ](
    key: [u8; 32],
    nonce: [u8; 8],
) -> (state: [u32; 16])
    ensures
        state@ == initial_state(key@, nonce@),
;

/// The block of sixteen words that ChaCha with `rounds` rounds makes of
/// the sixteen words `input`.
pub uninterp spec fn chacha_block_words(rounds: u8, input: Seq<u32>) -> Seq<u32>;

/// `nanorand::crypto::chacha::chacha_block` runs the ChaCha rounds over
/// sixteen words and adds the input to the outcome, word by word. It reads
/// nothing but its arguments, so the block has a name. It stops the
/// program on an odd number of rounds, which `requires` leaves out.
pub assume_specification[ nanorand::crypto::chacha::chacha_block ](
    rounds: u8,
    input: [u32; 16],
) -> (block: [u32; 16])
    requires
        rounds % 2 == 0,
    ensures
        block@ == chacha_block_words(rounds, input@),
;

/// The random word of draw number `draw` under `seed`: the first two words
/// of the block that the seed, as key, and the draw number, as nonce, give.
pub open spec fn random_word(seed: Seq<u8>, draw: u64) -> u64 {
    let block = chacha_block_words(ROUNDS, initial_state(seed, spec_u64_to_le_bytes(draw)));
    (block[0] + 0x1_0000_0000 * block[1]) as u64
}

/// Computes `random_word`.
pub fn next_random(seed: &[u8; 32], draw: u64) -> (word: u64)
    ensures
        word == random_word(seed@, draw),
{
    let bytes = u64_to_le_bytes(draw);
    let nonce: [u8; 8] = [
        bytes[0],
        bytes[1],
        bytes[2],
        bytes[3],
        bytes[4],
        bytes[5],
        bytes[6],
        bytes[7],
    ];
    assert(nonce@ =~= bytes@);
    let state = nanorand::crypto::chacha::chacha_init(*seed, nonce);
    let block = nanorand::crypto::chacha::chacha_block(ROUNDS, state);
    let low: u64 = block[0] as u64;
    let high: u64 = block[1] as u64;
    low + 0x1_0000_0000 * high
}

/// The random words of the first `k` draws under `seed`.
pub open spec fn random_words(seed: Seq<u8>, k: nat) -> Seq<u64> {
    Seq::new(k, |i: int| random_word(seed, i as u64))
}

/// Computes `random_words`.
pub fn next_words(seed: &[u8; 32], k: usize) -> (words: Vec<u64>)
    ensures
        words@ == random_words(seed@, k as nat),
{
    let mut words: Vec<u64> = Vec::new();
    let mut i: usize = 0;
    while i < k
        invariant
            i <= k,
            words@ == random_words(seed@, i as nat),
        decreases k - i,
    {
        let word = next_random(seed, i as u64);
        words.push(word);
        i += 1;
        assert(words@ =~= random_words(seed@, i as nat));
    }
    words
}

/// The candidates `0, 1, ..`, `n` of them, in order.
pub open spec fn candidates(n: nat) -> Seq<usize> {
    Seq::new(n, |i: int| i as usize)
}

/// What the draws take out of the working set `working`, in the order in
/// which they are drawn, one draw for each word. A draw takes the element
/// at the position `word % len` and leaves the rest in order.
pub open spec fn pick_from(working: Seq<usize>, words: Seq<u64>) -> Seq<usize>
    decreases words.len(),
{
    if words.len() == 0 || working.len() == 0 {
        Seq::empty()
    } else {
        let at = (words[0] % (working.len() as u64)) as int;
        seq![working[at]] + pick_from(working.remove(at), words.drop_first())
    }
}

/// The positions that draws without replacement pick among `n`
/// candidates, one for each random word.
pub open spec fn positions(n: nat, words: Seq<u64>) -> Seq<usize> {
    pick_from(candidates(n), words)
}

/// The positions that `k` draws without replacement pick among `n`
/// candidates under `seed`.
pub open spec fn sample_spec(seed: Seq<u8>, n: nat, k: nat) -> Seq<usize> {
    positions(n, random_words(seed, k))
}

/// Tells whether no value occurs twice in `s`.
pub open spec fn distinct(s: Seq<usize>) -> bool {
    forall|i: int, j: int| 0 <= i < j < s.len() ==> s[i] != s[j]
}

/// Draws from a working set without repeats are as many as there are
/// words, come from the working set, and do not repeat.
pub proof fn lemma_pick_from(working: Seq<usize>, words: Seq<u64>)
    requires
        words.len() <= working.len(),
        working.len() <= u64::MAX,
        distinct(working),
    ensures
        pick_from(working, words).len() == words.len(),
        forall|i: int|
            0 <= i < words.len() ==> working.contains(#[trigger] pick_from(working, words)[i]),
        distinct(pick_from(working, words)),
    decreases words.len(),
{
    if words.len() > 0 {
        let at = (words[0] % (working.len() as u64)) as int;
        let rest = working.remove(at);
        let tail = pick_from(rest, words.drop_first());
        let all = pick_from(working, words);
        assert(all == seq![working[at]] + tail);
        assert forall|i: int, j: int| 0 <= i < j < rest.len() implies rest[i] != rest[j] by {
            let from_i = if i < at { i } else { i + 1 };
            let from_j = if j < at { j } else { j + 1 };
            assert(rest[i] == working[from_i]);
            assert(rest[j] == working[from_j]);
        }
        lemma_pick_from(rest, words.drop_first());
        assert forall|i: int| 0 <= i < words.len() implies working.contains(#[trigger] all[i]) by {
            if i == 0 {
                assert(working[at] == all[0]);
            } else {
                assert(all[i] == tail[i - 1]);
                assert(rest.contains(tail[i - 1]));
                let p = choose|p: int| 0 <= p < rest.len() && rest[p] == tail[i - 1];
                let back = if p < at { p } else { p + 1 };
                assert(working[back] == rest[p]);
            }
        }
        assert forall|i: int, j: int| 0 <= i < j < all.len() implies all[i] != all[j] by {
            assert(all[j] == tail[j - 1]);
            if i == 0 {
                assert(rest.contains(tail[j - 1]));
                let p = choose|p: int| 0 <= p < rest.len() && rest[p] == tail[j - 1];
                let back = if p < at { p } else { p + 1 };
                assert(working[back] == rest[p]);
                assert(back != at);
            } else {
                assert(all[i] == tail[i - 1]);
            }
        }
    }
}

/// Drawing is without replacement, whatever the random words are: as many
/// draws as there are words, and no more than there are candidates, give
/// as many positions below `n`, no two of them the same.
pub proof fn lemma_positions_without_replacement(n: nat, words: Seq<u64>)
    requires
        words.len() <= n,
        n <= usize::MAX,
    ensures
        positions(n, words).len() == words.len(),
        forall|i: int| 0 <= i < words.len() ==> #[trigger] positions(n, words)[i] < n,
        distinct(positions(n, words)),
{
    let all = candidates(n);
    lemma_pick_from(all, words);
    assert forall|i: int| 0 <= i < words.len() implies #[trigger] positions(n, words)[i] < n by {
        let v = positions(n, words)[i];
        assert(all.contains(v));
        let p = choose|p: int| 0 <= p < all.len() && all[p] == v;
        assert(all[p] == p as usize);
    }
}

/// Sampling is without replacement: `k` draws among `n` candidates, with
/// `k` no larger than `n`, give `k` positions below `n`, no two of them
/// the same.
pub proof fn lemma_sample_without_replacement(seed: Seq<u8>, n: nat, k: nat)
    requires
        k <= n,
        n <= usize::MAX,
    ensures
        sample_spec(seed, n, k).len() == k,
        forall|i: int| 0 <= i < k ==> #[trigger] sample_spec(seed, n, k)[i] < n,
        distinct(sample_spec(seed, n, k)),
{
    lemma_positions_without_replacement(n, random_words(seed, k));
}

/// Sampling is reproducible: the positions depend on the bytes of the
/// seed, on `n` and on `k`, and on nothing else.
pub proof fn lemma_sample_reproducible(seed_a: Seq<u8>, seed_b: Seq<u8>, n: nat, k: nat)
    requires
        seed_a =~= seed_b,
    ensures
        sample_spec(seed_a, n, k) == sample_spec(seed_b, n, k),
{
}

/// Draws among `n` candidates without replacement, one draw for each of
/// the random words.
///
/// More words than candidates are an error; no words give no position.
pub fn pick_positions(n: usize, words: &Vec<u64>) -> (result: Result<Vec<usize>, GachaError>)
    ensures
        match result {
            Ok(picked) => words.len() <= n && picked@ == positions(n as nat, words@),
            Err(e) => words.len() > n && e == GachaError::InvalidDrawSize,
        },
{
    let k = words.len();
    if k > n {
        return Err(GachaError::InvalidDrawSize);
    }
    let mut working: Vec<usize> = Vec::new();
    let mut i: usize = 0;
    while i < n
        invariant
            i <= n,
            working@ == candidates(i as nat),
        decreases n - i,
    {
        working.push(i);
        i += 1;
        assert(working@ =~= candidates(i as nat));
    }
    let mut picked: Vec<usize> = Vec::new();
    let mut draw: usize = 0;
    assert(words@.skip(0) =~= words@);
    assert(picked@ + pick_from(working@, words@.skip(0)) =~= positions(n as nat, words@));
    while draw < k
        invariant
            draw <= k <= n,
            k == words.len(),
            working@.len() == n - draw,
            picked@ + pick_from(working@, words@.skip(draw as int)) == positions(
                n as nat,
                words@,
            ),
        decreases k - draw,
    {
        let len: u64 = working.len() as u64;
        let at: usize = (words[draw] % len) as usize;
        let ghost before = working@;
        let ghost so_far = picked@;
        let item = working.remove(at);
        picked.push(item);
        draw += 1;
        proof {
            let tail = pick_from(working@, words@.skip(draw as int));
            assert(words@.skip(draw - 1).drop_first() =~= words@.skip(draw as int));
            assert(pick_from(before, words@.skip(draw - 1)) == seq![before[at as int]] + tail);
            assert(picked@ + tail =~= so_far + (seq![before[at as int]] + tail));
        }
    }
    assert(picked@ + Seq::<usize>::empty() =~= picked@);
    Ok(picked)
}

/// Draws `k` of `n` candidates without replacement, under `seed`.
///
/// Asking for more than there are is an error; asking for none gives none.
pub fn sample(seed: &[u8; 32], n: usize, k: usize) -> (result: Result<Vec<usize>, GachaError>)
    ensures
        match result {
            Ok(picked) => k <= n && picked@ == sample_spec(seed@, n as nat, k as nat),
            Err(e) => k > n && e == GachaError::InvalidDrawSize,
        },
{
    if k > n {
        return Err(GachaError::InvalidDrawSize);
    }
    let words = next_words(seed, k);
    pick_positions(n, &words)
}

} // verus!
