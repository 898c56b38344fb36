use vstd::prelude::*;
use vstd::string::StringSliceAdditionalSpecFns;
use vstd::utf8::{
    decode_utf8, decode_utf8_split, encode_utf8_decode_utf8, encode_utf8_valid_utf8,
    is_char_boundary, is_char_boundary_iff_not_is_continuation_byte, is_continuation_byte,
};

verus! {

/// The byte that separates words.
pub const SPACE: u8 = 32;

/// The largest index whose Fibonacci number fits in a `u32`.
pub const FIBONACCI_LIMIT: u32 = 47;

/// The constant five.
pub fn return5() -> (r: i32)
    ensures
        r == 5,
{
    5
}

/// The Fibonacci numbers: 0, 1, and from there on the sum of the two before.
pub open spec fn fib(n: nat) -> nat
    decreases n,
{
    if n == 0 {
        0
    } else if n == 1 {
        1
    } else {
        fib((n - 1) as nat) + fib((n - 2) as nat)
    }
}

/// The Fibonacci numbers do not decrease.
pub proof fn lemma_fib_monotonic(i: nat, j: nat)
    requires
        i <= j,
    ensures
        fib(i) <= fib(j),
    decreases j,
{
    if i < j {
        if j >= 2 {
            lemma_fib_monotonic(i, (j - 1) as nat);
        }
    }
}

/// The Fibonacci number at `FIBONACCI_LIMIT`, which is the last to fit in a
/// `u32`.
pub proof fn lemma_fib_limit()
    ensures
        fib(FIBONACCI_LIMIT as nat) == 2971215073,
{
    assert(fib(0) == 0);
    assert(fib(1) == 1);
    assert(fib(2) == 1);
    assert(fib(3) == 2);
    assert(fib(4) == 3);
    assert(fib(5) == 5);
    assert(fib(6) == 8);
    assert(fib(7) == 13);
    assert(fib(8) == 21);
    assert(fib(9) == 34);
    assert(fib(10) == 55);
    assert(fib(11) == 89);
    assert(fib(12) == 144);
    assert(fib(13) == 233);
    assert(fib(14) == 377);
    assert(fib(15) == 610);
    assert(fib(16) == 987);
    assert(fib(17) == 1597);
    assert(fib(18) == 2584);
    assert(fib(19) == 4181);
    assert(fib(20) == 6765);
    assert(fib(21) == 10946);
    assert(fib(22) == 17711);
    assert(fib(23) == 28657);
    assert(fib(24) == 46368);
    assert(fib(25) == 75025);
    assert(fib(26) == 121393);
    assert(fib(27) == 196418);
    assert(fib(28) == 317811);
    assert(fib(29) == 514229);
    assert(fib(30) == 832040);
    assert(fib(31) == 1346269);
    assert(fib(32) == 2178309);
    assert(fib(33) == 3524578);
    assert(fib(34) == 5702887);
    assert(fib(35) == 9227465);
    assert(fib(36) == 14930352);
    assert(fib(37) == 24157817);
    assert(fib(38) == 39088169);
    assert(fib(39) == 63245986);
    assert(fib(40) == 102334155);
    assert(fib(41) == 165580141);
    assert(fib(42) == 267914296);
    assert(fib(43) == 433494437);
    assert(fib(44) == 701408733);
    assert(fib(45) == 1134903170);
    assert(fib(46) == 1836311903);
    assert(fib(47) == 2971215073);
}

/// Computes the `n`-th Fibonacci number.
pub fn fibonacci(n: u32) -> (r: u32)
    requires
        n <= FIBONACCI_LIMIT,
    ensures
        r == fib(n as nat),
    decreases n,
{
    if n == 0 {
        return 0;
    } else if n == 1 {
        return 1;
    } else {
        proof {
            lemma_fib_limit();
            lemma_fib_monotonic(n as nat, FIBONACCI_LIMIT as nat);
        }
        return fibonacci(n - 1) + fibonacci(n - 2);
    }
}

/// Whether `i` is the place of the first space among `bytes`.
pub open spec fn is_first_space(bytes: Seq<u8>, i: int) -> bool {
    &&& 0 <= i < bytes.len()
    &&& bytes[i] == SPACE
    &&& forall|j: int| 0 <= j < i ==> #[trigger] bytes[j] != SPACE
}

/// Whether there is no space among `bytes`.
pub open spec fn no_space(bytes: Seq<u8>) -> bool {
    forall|j: int| 0 <= j < bytes.len() ==> #[trigger] bytes[j] != SPACE
}

/// The bytes of the first word: those before the first space, or all of
/// them where there is no space.
pub open spec fn first_word_bytes(bytes: Seq<u8>) -> Seq<u8> {
    if exists|i: int| is_first_space(bytes, i) {
        bytes.subrange(0, choose|i: int| is_first_space(bytes, i))
    } else {
        bytes
    }
}

/// At most one place is that of the first space.
pub proof fn lemma_first_space_unique(bytes: Seq<u8>, i: int, k: int)
    requires
        is_first_space(bytes, i),
        is_first_space(bytes, k),
    ensures
        i == k,
{
    if i < k {
        assert(bytes[i] != SPACE);
    } else if k < i {
        assert(bytes[k] != SPACE);
    }
}

/// Returns the first word of `s`: the part before its first space, or the
/// whole of `s` where it holds no space. The word is made of whole
/// characters with which `s` begins.
pub fn first_word(s: &str) -> (word: &str)
    ensures
        word.spec_bytes() == first_word_bytes(s.spec_bytes()),
        no_space(word.spec_bytes()),
        no_space(s.spec_bytes()) ==> word@ == s@,
        word@.is_prefix_of(s@),
{
    let bytes = s.as_bytes();
    let mut i: usize = 0;
    while i < bytes.len()
        invariant
            i <= bytes.len(),
            bytes@ == s.spec_bytes(),
            forall|j: int| 0 <= j < i ==> #[trigger] bytes@[j] != SPACE,
        decreases bytes.len() - i,
    {
        if bytes[i] == SPACE {
            proof {
                encode_utf8_valid_utf8(s@);
                is_char_boundary_iff_not_is_continuation_byte(bytes@, i as int);
                assert(!is_continuation_byte(bytes@[i as int]));
                assert(is_char_boundary(bytes@, i as int));
                let k = choose|k: int| is_first_space(bytes@, k);
                assert(is_first_space(bytes@, i as int));
                lemma_first_space_unique(bytes@, i as int, k);
            }
            let (word, _) = s.split_at(i);
            proof {
                let tail = bytes@.subrange(i as int, bytes@.len() as int);
                decode_utf8_split(bytes@, i as int);
                encode_utf8_decode_utf8(s@);
                encode_utf8_decode_utf8(word@);
                assert(s@ =~= word@ + decode_utf8(tail));
            }
            return word;
        }
        i += 1;
    }
    proof {
        if exists|k: int| is_first_space(bytes@, k) {
            let k = choose|k: int| is_first_space(bytes@, k);
            assert(bytes@[k] != SPACE);
        }
    }
    s
}

} // verus!
