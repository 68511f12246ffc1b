use vstd::prelude::*;

verus! {

/// The base name of the compositor's socket: `pinnacle_socket`.
pub open spec fn spec_socket_base() -> Seq<u8> {
    seq![
        112u8, 105u8, 110u8, 110u8, 97u8, 99u8, 108u8, 101u8, 95u8, 115u8, 111u8, 99u8, 107u8, 101u8, 116u8,
    ]
}

/// The decimal digits of `n`, most significant first.
pub open spec fn spec_decimal(n: nat) -> Seq<u8>
    decreases n,
{
    if n < 10 {
        seq![(48 + n) as u8]
    } else {
        spec_decimal(n / 10).push((48 + n % 10) as u8)
    }
}

/// The socket's name: the base name, or with a suffix `_k` the `k`-th extra one.
pub open spec fn spec_socket_name(suffix: Option<u32>) -> Seq<u8> {
    match suffix {
        None => spec_socket_base(),
        Some(k) => spec_socket_base() + seq![95u8] + spec_decimal(k as nat),
    }
}

/// Some file of `names` has the numbered name `_k`.
pub open spec fn suffix_taken(names: Seq<Vec<u8>>, k: u32) -> bool {
    exists|i: int| 0 <= i < names.len() && #[trigger] names[i]@ == spec_socket_name(Some(k))
}

/// `name` starts with the socket's base name.
pub open spec fn is_socket_file(name: Seq<u8>) -> bool {
    name.len() >= spec_socket_base().len() && name.subrange(0, spec_socket_base().len() as int)
        == spec_socket_base()
}

/// The indices, in order, of the first `n` names that are socket files.
pub open spec fn socket_files(names: Seq<Vec<u8>>, n: int) -> Seq<usize>
    decreases n,
{
    if n <= 0 {
        seq![]
    } else if is_socket_file(names[n - 1]@) {
        socket_files(names, n - 1).push((n - 1) as usize)
    } else {
        socket_files(names, n - 1)
    }
}

/// Where the compositor's socket goes, given the files already in its
/// directory.
#[derive(Debug, Clone, PartialEq, Eq)]
pub struct SocketPlan {
    /// `None`: the plain name; `Some(k)`: the name with suffix `_k`.
    pub suffix: Option<u32>,
    /// The indices of the files to remove first.
    pub remove: Vec<usize>,
}

pub fn socket_base() -> (r: Vec<u8>)
    ensures
        r@ == spec_socket_base(),
{
    let r = vec![
        112u8, 105u8, 110u8, 110u8, 97u8, 99u8, 108u8, 101u8, 95u8, 115u8, 111u8, 99u8, 107u8, 101u8, 116u8,
    ];
    assert(r@ =~= spec_socket_base());
    r
}

fn decimal(n: u32) -> (r: Vec<u8>)
    ensures
        r@ == spec_decimal(n as nat),
    decreases n,
{
    if n < 10 {
        let r = vec![48u8 + n as u8];
        assert(r@ =~= spec_decimal(n as nat));
        r
    } else {
        let mut r = decimal(n / 10);
        r.push(48u8 + (n % 10) as u8);
        r
    }
}

/// The socket's file name for `suffix`.
pub fn socket_name(suffix: Option<u32>) -> (r: Vec<u8>)
    ensures
        r@ == spec_socket_name(suffix),
{
    let mut r = socket_base();
    match suffix {
        None => r,
        Some(k) => {
            r.push(95u8);
            let mut digits = decimal(k);
            r.append(&mut digits);
            assert(r@ =~= spec_socket_name(suffix));
            r
        },
    }
}

fn bytes_eq(a: &Vec<u8>, b: &Vec<u8>) -> (r: bool)
    ensures
        r == (a@ == b@),
{
    if a.len() != b.len() {
        return false;
    }
    let mut i: usize = 0;
    while i < a.len()
        invariant
            a@.len() == b@.len(),
            0 <= i <= a@.len(),
            forall|j: int| 0 <= j < i ==> a@[j] == b@[j],
        decreases a@.len() - i,
    {
        if a[i] != b[i] {
            return false;
        }
        i += 1;
    }
    assert(a@ =~= b@);
    true
}

fn starts_with_base(name: &Vec<u8>, base: &Vec<u8>) -> (r: bool)
    requires
        base@ == spec_socket_base(),
    ensures
        r == is_socket_file(name@),
{
    if name.len() < base.len() {
        return false;
    }
    let mut i: usize = 0;
    while i < base.len()
        invariant
            base@ == spec_socket_base(),
            name@.len() >= base@.len(),
            0 <= i <= base@.len(),
            forall|j: int| 0 <= j < i ==> name@[j] == base@[j],
        decreases base@.len() - i,
    {
        if name[i] != base[i] {
            return false;
        }
        i += 1;
    }
    assert(name@.subrange(0, base@.len() as int) =~= base@);
    true
}

fn has_name(names: &Vec<Vec<u8>>, name: &Vec<u8>) -> (r: bool)
    ensures
        r == exists|i: int| 0 <= i < names@.len() && #[trigger] names@[i]@ == name@,
{
    let mut i: usize = 0;
    while i < names.len()
        invariant
            0 <= i <= names@.len(),
            forall|j: int| 0 <= j < i ==> #[trigger] names@[j]@ != name@,
        decreases names@.len() - i,
    {
        if bytes_eq(&names[i], name) {
            return true;
        }
        i += 1;
    }
    false
}

/// Decide where the socket goes. With more than one compositor running
/// (`instances` counts them, this one included), it takes the first suffix
/// from 1 up whose name no file in the directory has, and removes nothing:
/// the other sockets belong to the other compositors. Otherwise it takes the
/// plain name and removes every file whose name starts with it, sockets left
/// by an earlier run. `names` are the names of the directory's files.
pub fn plan_socket(instances: usize, names: &Vec<Vec<u8>>) -> (r: SocketPlan)
    ensures
        instances > 1 ==> {
            &&& r.remove@.len() == 0
            &&& match r.suffix {
                Some(k) => {
                    &&& k >= 1
                    &&& !suffix_taken(names@, k)
                    &&& forall|j: u32| 1 <= j < k ==> suffix_taken(names@, j)
                },
                None => forall|j: u32| 1 <= j ==> suffix_taken(names@, j),
            }
        },
        instances <= 1 ==> r.suffix is None && r.remove@ == socket_files(
            names@,
            names@.len() as int,
        ),
{
    if instances > 1 {
        let mut k: u32 = 1;
        loop
            invariant
                instances > 1,
                1 <= k,
                forall|j: u32| 1 <= j < k ==> suffix_taken(names@, j),
            decreases u32::MAX - k,
        {
            let name = socket_name(Some(k));
            if !has_name(names, &name) {
                return SocketPlan { suffix: Some(k), remove: Vec::new() };
            }
            if k == u32::MAX {
                return SocketPlan { suffix: None, remove: Vec::new() };
            }
            k += 1;
        }
    } else {
        let base = socket_base();
        let mut remove: Vec<usize> = Vec::new();
        let mut i: usize = 0;
        while i < names.len()
            invariant
                base@ == spec_socket_base(),
                0 <= i <= names@.len(),
                remove@ == socket_files(names@, i as int),
            decreases names@.len() - i,
        {
            if starts_with_base(&names[i], &base) {
                remove.push(i);
            }
            i += 1;
        }
        SocketPlan { suffix: None, remove }
    }
}

} // verus!
