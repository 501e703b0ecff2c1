use vstd::prelude::*;
use crate::runc::trim_back;

verus! {

/// Whether `needle` occurs contiguously inside `hay`.
pub open spec fn contains_sub(hay: Seq<u8>, needle: Seq<u8>) -> bool {
    exists|k: int|
        0 <= k && k + needle.len() <= hay.len() && #[trigger] hay.subrange(k, k + needle.len())
            == needle
}

/// Searches `hay` for `needle`; the empty needle is found everywhere.
pub fn bytes_contains(hay: &[u8], needle: &[u8]) -> (r: bool)
    ensures
        r == contains_sub(hay@, needle@),
{
    let n = hay.len();
    let m = needle.len();
    if m > n {
        return false;
    }
    if m == 0 {
        proof {
            let l = needle@.len() as int;
            assert(hay@.subrange(0, 0 + l) =~= needle@);
            assert(contains_sub(hay@, needle@));
        }
        return true;
    }
    let mut k: usize = 0;
    while k <= n - m
        invariant
            1 <= m <= n == hay@.len(),
            m == needle@.len(),
            k <= n - m + 1,
            forall|k2: int|
                0 <= k2 < k ==> #[trigger] hay@.subrange(k2, k2 + needle@.len()) != needle@,
        decreases n - k,
    {
        let mut j: usize = 0;
        let mut matches = true;
        while j < m
            invariant
                m <= n == hay@.len(),
                m == needle@.len(),
                k + m <= n,
                j <= m,
                matches ==> forall|j2: int| 0 <= j2 < j ==> hay@[k + j2] == needle@[j2],
                !matches ==> hay@.subrange(k as int, k as int + needle@.len()) != needle@,
            decreases m - j,
        {
            if hay[k + j] != needle[j] {
                proof {
                    assert(hay@.subrange(k as int, k as int + needle@.len())[j as int] == hay@[k
                        + j]);
                }
                matches = false;
            }
            j = j + 1;
        }
        if matches {
            proof {
                assert(hay@.subrange(k as int, k as int + needle@.len()) =~= needle@);
            }
            return true;
        }
        k = k + 1;
    }
    proof {
        assert forall|k2: int|
            0 <= k2 && k2 + needle@.len() <= hay@.len() implies #[trigger] hay@.subrange(
            k2,
            k2 + needle@.len(),
        ) != needle@ by {
            assert(k2 < k);
        }
    }
    false
}

/// One byte folded to lowercase ASCII.
pub open spec fn lower_byte(b: u8) -> u8 {
    if 65 <= b <= 90 {
        (b + 32) as u8
    } else {
        b
    }
}

/// Folds a byte string to lowercase ASCII.
pub fn to_ascii_lower(bytes: &[u8]) -> (r: Vec<u8>)
    ensures
        r@.len() == bytes@.len(),
        forall|i: int| 0 <= i < bytes@.len() ==> r@[i] == lower_byte(#[trigger] bytes@[i]),
{
    let n = bytes.len();
    let mut out: Vec<u8> = Vec::new();
    let mut i: usize = 0;
    while i < n
        invariant
            i <= n == bytes@.len(),
            out@.len() == i,
            forall|j: int| 0 <= j < i ==> out@[j] == lower_byte(#[trigger] bytes@[j]),
        decreases n - i,
    {
        let b = bytes[i];
        if 65 <= b && b <= 90 {
            out.push(b + 32);
        } else {
            out.push(b);
        }
        i = i + 1;
    }
    out
}

/// The bytes of the word looked for in the DMI product name.
pub open spec fn cloud_marker() -> Seq<u8> {
    seq![99u8, 108u8, 111u8, 117u8, 100u8]
}

/// The bytes of the word looked for in the DMI vendor string.
pub open spec fn hypervisor_marker() -> Seq<u8> {
    seq![104u8, 121u8, 112u8, 101u8, 114u8, 118u8, 105u8, 115u8, 111u8, 114u8]
}

/// The lowercase fold of a byte string, as a sequence.
pub open spec fn lowered(s: Seq<u8>) -> Seq<u8> {
    s.map_values(|b: u8| lower_byte(b))
}

/// Whether one DMI identification file names the hypervisor: its
/// lowercase fold contains both markers.
pub open spec fn dmi_file_matches(s: Seq<u8>) -> bool {
    contains_sub(lowered(s), cloud_marker()) && contains_sub(lowered(s), hypervisor_marker())
}

/// Decides whether the host itself runs inside the hypervisor: both DMI
/// identification files must name it.
pub fn dmi_indicates_vm(product_name: &[u8], sys_vendor: &[u8]) -> (r: bool)
    ensures
        r == (dmi_file_matches(product_name@) && dmi_file_matches(sys_vendor@)),
{
    let mut cloud: Vec<u8> = Vec::new();
    cloud.push(99);
    cloud.push(108);
    cloud.push(111);
    cloud.push(117);
    cloud.push(100);
    let mut hyper: Vec<u8> = Vec::new();
    hyper.push(104);
    hyper.push(121);
    hyper.push(112);
    hyper.push(101);
    hyper.push(114);
    hyper.push(118);
    hyper.push(105);
    hyper.push(115);
    hyper.push(111);
    hyper.push(114);
    proof {
        assert(cloud@ =~= cloud_marker());
        assert(hyper@ =~= hypervisor_marker());
    }
    let p = to_ascii_lower(product_name);
    let v = to_ascii_lower(sys_vendor);
    proof {
        assert(p@ =~= lowered(product_name@));
        assert(v@ =~= lowered(sys_vendor@));
    }
    let pm = bytes_contains(p.as_slice(), cloud.as_slice()) && bytes_contains(
        p.as_slice(),
        hyper.as_slice(),
    );
    let vm = bytes_contains(v.as_slice(), cloud.as_slice()) && bytes_contains(
        v.as_slice(),
        hyper.as_slice(),
    );
    pm && vm
}

/// Reads a sysfs identification value: drops the two-character radix
/// prefix and any trailing whitespace. Exactly the contents of at least
/// two bytes are accepted.
pub fn strip_sysfs_id(bytes: &[u8]) -> (r: Option<Vec<u8>>)
    ensures
        r is Some <==> bytes@.len() >= 2,
        r matches Some(v) ==> v@ == trim_back(bytes@.skip(2)),
{
    let n = bytes.len();
    if n < 2 {
        return None;
    }
    let mut b: usize = n;
    while b > 2 && (bytes[b - 1] == 32 || bytes[b - 1] == 9 || bytes[b - 1] == 10 || bytes[b - 1]
        == 13)
        invariant
            2 <= b <= n == bytes@.len(),
            trim_back(bytes@.skip(2)) == trim_back(bytes@.subrange(2, b as int)),
        decreases b,
    {
        proof {
            assert(bytes@.subrange(2, b as int).last() == bytes@[b as int - 1]);
            assert(bytes@.subrange(2, b as int).drop_last() =~= bytes@.subrange(2, b as int - 1));
        }
        b = b - 1;
    }
    proof {
        if b > 2 {
            assert(bytes@.subrange(2, b as int).last() == bytes@[b as int - 1]);
        }
        assert(trim_back(bytes@.subrange(2, b as int)) == bytes@.subrange(2, b as int));
    }
    let mut out: Vec<u8> = Vec::new();
    crate::icmp6::append_bytes(&mut out, vstd::slice::slice_subrange(bytes, 2, b));
    proof {
        assert(out@ =~= bytes@.subrange(2, b as int));
    }
    Some(out)
}

} // verus!
