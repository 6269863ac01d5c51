//! Modules lesson: the helper items its inline example modules provide,
//! gathered in one module.

use vstd::prelude::*;

verus! {

/// Adds two numbers; the sum must fit the machine type.
pub fn add(a: i32, b: i32) -> (r: i32)
    requires
        i32::MIN <= a + b <= i32::MAX,
    ensures
        r == a + b,
{
    a + b
}

/// Multiplies two numbers; the product must fit the machine type.
pub fn multiply(a: i32, b: i32) -> (r: i32)
    requires
        i32::MIN <= a * b <= i32::MAX,
    ensures
        r == a * b,
{
    a * b
}

/// Raises `base` to the power `exp`; every intermediate power must fit
/// the machine type.
pub fn power(base: i32, exp: u32) -> (r: i32)
    requires
        forall|k: nat|
            k <= exp ==> i32::MIN <= #[trigger] vstd::arithmetic::power::pow(base as int, k)
                <= i32::MAX,
    ensures
        r == vstd::arithmetic::power::pow(base as int, exp as nat),
{
    crate::lessons::functions::power(base, exp)
}

/// A public function backed by a private helper: only the public one is
/// visible outside this module.
pub fn public() -> (r: i32)
    ensures
        r == 100,
{
    private()
}

fn private() -> (r: i32)
    ensures
        r == 100,
{
    100
}

/// Is `c` an ASCII letter?
pub open spec fn is_ascii_alpha(c: char) -> bool {
    ('a' <= c && c <= 'z') || ('A' <= c && c <= 'Z')
}

/// The character code with an ASCII upper-case letter folded to lower case.
pub open spec fn lower_code(c: char) -> int {
    if 'A' <= c && c <= 'Z' {
        c as int + 32
    } else {
        c as int
    }
}

/// The letters of the text, case-folded: what the palindrome test reads.
pub open spec fn cleaned(s: Seq<char>) -> Seq<int>
    decreases s.len(),
{
    if s.len() == 0 {
        Seq::empty()
    } else if is_ascii_alpha(s.last()) {
        cleaned(s.drop_last()).push(lower_code(s.last()))
    } else {
        cleaned(s.drop_last())
    }
}

/// Whether the text reads the same forwards and backwards, looking only
/// at its ASCII letters and ignoring their case.
pub fn is_palindrome(s: &str) -> (r: bool)
    ensures
        r == (cleaned(s@) == cleaned(s@).reverse()),
{
    let n = s.unicode_len();
    let mut v: Vec<u32> = Vec::new();
    let mut i: usize = 0;
    while i < n
        invariant
            n == s@.len(),
            0 <= i <= n,
            v@.len() <= i,
            v@.map_values(|x: u32| x as int) == cleaned(s@.take(i as int)),
        decreases n - i,
    {
        let c = s.get_char(i);
        proof {
            assert(s@.take(i as int + 1).drop_last() =~= s@.take(i as int));
            assert(s@.take(i as int + 1).last() == s@[i as int]);
        }
        if (c >= 'a' && c <= 'z') || (c >= 'A' && c <= 'Z') {
            let code: u32 = if c >= 'A' && c <= 'Z' {
                c as u32 + 32
            } else {
                c as u32
            };
            v.push(code);
            proof {
                assert(v@.map_values(|x: u32| x as int) =~= cleaned(s@.take(i as int + 1)));
            }
        } else {
            proof {
                assert(v@.map_values(|x: u32| x as int) =~= cleaned(s@.take(i as int + 1)));
            }
        }
        i = i + 1;
    }
    proof {
        assert(s@.take(n as int) =~= s@);
    }
    let m = v.len();
    let ghost cl = cleaned(s@);
    let mut j: usize = 0;
    while j < m
        invariant
            m == v@.len(),
            0 <= j <= m,
            cl == cleaned(s@),
            v@.map_values(|x: u32| x as int) == cl,
            forall|k: int| 0 <= k < j ==> #[trigger] cl[k] == cl[m - 1 - k],
        decreases m - j,
    {
        if v[j] != v[m - 1 - j] {
            proof {
                assert(cl[j as int] != cl[m - 1 - j as int]);
                assert(cl.reverse()[j as int] == cl[m - 1 - j as int]);
                assert(cl != cl.reverse());
            }
            return false;
        }
        proof {
            assert(cl[j as int] == v@.map_values(|x: u32| x as int)[j as int]);
        }
        j = j + 1;
    }
    proof {
        assert(cl =~= cl.reverse());
    }
    true
}

/// A client that renders request lines against a fixed base address.
pub struct ApiClient {
    base_url: String,
}

impl ApiClient {
    /// The base address every request line starts from.
    pub closed spec fn spec_base_url(&self) -> Seq<char> {
        self.base_url@
    }

    /// A client for the given base address.
    pub fn new(base_url: String) -> (r: ApiClient)
        ensures
            r.spec_base_url() == base_url@,
    {
        ApiClient { base_url }
    }

    /// The request line for an endpoint under the base address.
    pub fn get(&self, endpoint: &str) -> (r: String)
        ensures
            r@ == "GET "@ + self.spec_base_url() + "/"@ + endpoint@,
    {
        let mut r = "GET ".to_owned();
        r.append(self.base_url.as_str());
        r.append("/");
        r.append(endpoint);
        r
    }
}

/// A connection description: a host name and a port.
pub struct Database {
    pub host: String,
    pub port: u32,
}

impl Database {
    /// A description for the given host and port.
    pub fn new(host: String, port: u32) -> (r: Database)
        ensures
            r.host@ == host@,
            r.port == port,
    {
        Database { host, port }
    }
}

} // verus!
