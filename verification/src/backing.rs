//! The exchange with the backing-store provider: what to ask it for, and how
//! to read its answer.

use libc::c_int;
use vstd::arithmetic::power2::is_pow2;
use vstd::prelude::*;
use vstd::string::StringExecFns;

verus! {

/// Why no block of memory was obtained.
#[derive(Debug, PartialEq, Eq, Structural)]
pub enum AllocError {
    /// A block of zero bytes was asked for.
    ZeroSizeAlloc,
    /// The provider refused; the code is the one it reported.
    Errno(c_int),
}

/// The character that stands for a digit below ten.
pub open spec fn digit(d: nat) -> char {
    if d == 0 {
        '0'
    } else if d == 1 {
        '1'
    } else if d == 2 {
        '2'
    } else if d == 3 {
        '3'
    } else if d == 4 {
        '4'
    } else if d == 5 {
        '5'
    } else if d == 6 {
        '6'
    } else if d == 7 {
        '7'
    } else if d == 8 {
        '8'
    } else {
        '9'
    }
}

/// The decimal digits of a number, the highest first, with no leading
/// zero but for zero itself.
pub open spec fn digits(n: nat) -> Seq<char>
    decreases n,
{
    if n < 10 {
        seq![digit(n)]
    } else {
        digits(n / 10).push(digit(n % 10))
    }
}

/// A number in decimal digits, behind a minus sign where it is negative.
pub open spec fn decimal(n: int) -> Seq<char> {
    if n < 0 {
        seq!['-'] + digits((-n) as nat)
    } else {
        digits(n as nat)
    }
}

fn digit_text(d: u64) -> (r: &'static str)
    requires
        d < 10,
    ensures
        r@ == seq![digit(d as nat)],
{
    proof {
        reveal_strlit("0");
        reveal_strlit("1");
        reveal_strlit("2");
        reveal_strlit("3");
        reveal_strlit("4");
        reveal_strlit("5");
        reveal_strlit("6");
        reveal_strlit("7");
        reveal_strlit("8");
        reveal_strlit("9");
    }
    let r = if d == 0 {
        "0"
    } else if d == 1 {
        "1"
    } else if d == 2 {
        "2"
    } else if d == 3 {
        "3"
    } else if d == 4 {
        "4"
    } else if d == 5 {
        "5"
    } else if d == 6 {
        "6"
    } else if d == 7 {
        "7"
    } else if d == 8 {
        "8"
    } else {
        "9"
    };
    assert(r@ =~= seq![digit(d as nat)]);
    r
}

fn digits_text(n: u64) -> (r: String)
    ensures
        r@ == digits(n as nat),
    decreases n,
{
    if n < 10 {
        String::from_str(digit_text(n))
    } else {
        let r = digits_text(n / 10).concat(digit_text(n % 10));
        assert(r@ =~= digits((n / 10) as nat).push(digit((n % 10) as nat)));
        r
    }
}

/// Writes a status code in decimal digits.
pub fn decimal_text(code: c_int) -> (r: String)
    ensures
        r@ == decimal(code as int),
{
    if code < 0 {
        proof {
            reveal_strlit("-");
        }
        let magnitude: u64 = (-(code as i64)) as u64;
        let r = String::from_str("-").concat(digits_text(magnitude).as_str());
        assert(r@ =~= seq!['-'] + digits((-code) as nat));
        r
    } else {
        digits_text(code as u64)
    }
}

impl AllocError {
    /// What went wrong, in words.
    pub open spec fn text(&self) -> Seq<char> {
        match self {
            AllocError::ZeroSizeAlloc => "zero sized allocation is not supported"@,
            AllocError::Errno(code) => "system allocation error number: "@ + decimal(code as int),
        }
    }

    /// Says what went wrong, in words, with the provider's code in decimal
    /// digits.
    pub fn message(&self) -> (r: String)
        ensures
            r@ == self.text(),
    {
        match self {
            AllocError::ZeroSizeAlloc => String::from_str("zero sized allocation is not supported"),
            AllocError::Errno(code) => String::from_str("system allocation error number: ").concat(
                decimal_text(*code).as_str(),
            ),
        }
    }
}

/// A block to ask the provider for: `size` bytes at an address that is a
/// multiple of `alignment`.
#[derive(Debug, PartialEq, Eq, Structural)]
pub struct BlockRequest {
    pub size: usize,
    pub alignment: usize,
}

/// The provider's answer to one request: its status code, and the address of
/// the block where the code is zero.
#[derive(Debug, PartialEq, Eq, Structural)]
pub struct ProviderReply {
    pub errno: c_int,
    pub address: usize,
}

impl ProviderReply {
    /// A successful reply honours a request when the block it names is not at
    /// address zero, starts on a multiple of the requested alignment and lies
    /// wholly inside the address space. A refusal honours any request.
    pub open spec fn spec_honours(&self, request: &BlockRequest) -> bool {
        self.errno == 0 ==> {
            &&& request.alignment != 0
            &&& self.address != 0
            &&& self.address % request.alignment == 0
            &&& self.address + request.size <= usize::MAX
        }
    }

    /// Tests whether this reply honours `request`.
    #[verifier::when_used_as_spec(spec_honours)]
    pub fn honours(&self, request: &BlockRequest) -> (r: bool)
        ensures
            r == self.spec_honours(request),
    {
        if self.errno != 0 {
            return true;
        }
        request.alignment != 0 && self.address != 0 && self.address % request.alignment == 0
            && request.size <= usize::MAX - self.address
    }
}

/// Tests whether `n` is a power of two.
pub fn is_power_of_two(n: usize) -> (r: bool)
    ensures
        r == is_pow2(n as int),
{
    if n == 0 {
        proof {
            reveal(is_pow2);
        }
        return false;
    }
    let mut m: usize = n;
    while m % 2 == 0
        invariant
            m > 0,
            is_pow2(m as int) == is_pow2(n as int),
        decreases m,
    {
        proof {
            reveal(is_pow2);
        }
        m = m / 2;
    }
    proof {
        reveal(is_pow2);
    }
    m == 1
}

/// Decides what to ask the provider for. A block of zero bytes is never
/// asked for; any other size is asked for as it stands.
pub fn aligned_alloc(size: usize, alignment: usize) -> (r: Result<BlockRequest, AllocError>)
    requires
        is_pow2(alignment as int),
    ensures
        size == 0 ==> r == Err::<BlockRequest, AllocError>(AllocError::ZeroSizeAlloc),
        size != 0 ==> r == Ok::<BlockRequest, AllocError>(BlockRequest { size, alignment }),
{
    if size == 0 {
        return Err(AllocError::ZeroSizeAlloc);
    }
    Ok(BlockRequest { size, alignment })
}

impl BlockRequest {
    /// Reads the provider's answer to this request: the block's address
    /// where the status code is zero, and the code as an error where it is
    /// not.
    pub fn granted(&self, reply: &ProviderReply) -> (r: Result<usize, AllocError>)
        ensures
            reply.errno == 0 ==> r == Ok::<usize, AllocError>(reply.address),
            reply.errno != 0 ==> r == Err::<usize, AllocError>(AllocError::Errno(reply.errno)),
    {
        if reply.errno != 0 {
            Err(AllocError::Errno(reply.errno))
        } else {
            Ok(reply.address)
        }
    }
}

} // verus!
