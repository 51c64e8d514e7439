//! The platform-configuration-register (PCR) data model.
//!
//! [`Pcr`] is a single register value: a SHA-384-sized digest of exactly 48
//! bytes. [`Pcrs`] is the full register bank: one value for every index the
//! platform exposes, which are exactly {0, 1, 2, 3, 4, 8}.

use vstd::prelude::*;

use crate::{Error, ErrorContext};

verus! {

/// Which of the two PCR checks an operation failed.
#[derive(Clone, Copy, Debug, PartialEq, Eq, Structural)]
pub enum PcrErrorKind {
    /// The index is not one of {0, 1, 2, 3, 4, 8}.
    Index,
    /// The byte value does not have length 48.
    Length,
}

/// An error from a PCR operation.
pub type PcrError = Error<PcrErrorKind>;

/// A SHA-384 digest holds 48 bytes.
pub const PCR_LENGTH: usize = 48;

/// The indices the register bank exposes; 5 through 7 do not exist on this
/// platform.
#[derive(Clone, Copy, Debug, PartialEq, Eq, Structural)]
pub enum PcrIndex {
    Zero,
    One,
    Two,
    Three,
    Four,
    Eight,
}

/// Whether `index` names a register that exists: one of {0, 1, 2, 3, 4, 8}.
pub open spec fn valid_pcr_index(index: usize) -> bool {
    index == 0 || index == 1 || index == 2 || index == 3 || index == 4 || index == 8
}

impl PcrIndex {
    /// The numeric index this variant stands for.
    pub open spec fn spec_usize(self) -> usize {
        match self {
            PcrIndex::Zero => 0,
            PcrIndex::One => 1,
            PcrIndex::Two => 2,
            PcrIndex::Three => 3,
            PcrIndex::Four => 4,
            PcrIndex::Eight => 8,
        }
    }

    /// The numeric index this variant stands for.
    pub fn as_usize(self) -> (r: usize)
        ensures
            r == self.spec_usize(),
    {
        match self {
            PcrIndex::Zero => 0,
            PcrIndex::One => 1,
            PcrIndex::Two => 2,
            PcrIndex::Three => 3,
            PcrIndex::Four => 4,
            PcrIndex::Eight => 8,
        }
    }

    /// The variant for a numeric index, or an index error for the indices
    /// that do not exist on this platform.
    pub fn try_from(index: usize) -> (r: Result<PcrIndex, PcrError>)
        ensures
            r is Ok <==> valid_pcr_index(index),
            r matches Ok(i) ==> i.spec_usize() == index,
            r matches Err(e) ==> e.spec_kind() == PcrErrorKind::Index,
    {
        match index {
            0 => Ok(PcrIndex::Zero),
            1 => Ok(PcrIndex::One),
            2 => Ok(PcrIndex::Two),
            3 => Ok(PcrIndex::Three),
            4 => Ok(PcrIndex::Four),
            8 => Ok(PcrIndex::Eight),
            _ => Err(Error::new(
                PcrErrorKind::Index,
                ErrorContext("Invalid PCR index provided"),
            )),
        }
    }
}

/// A single Platform Configuration Register value: exactly 48 bytes.
#[derive(Clone, Debug, PartialEq, Eq)]
pub struct Pcr(Vec<u8>);

impl View for Pcr {
    type V = Seq<u8>;

    closed spec fn view(&self) -> Seq<u8> {
        self.0@
    }
}

impl Pcr {
    /// A `Pcr` always holds exactly 48 bytes.
    pub open spec fn wf(&self) -> bool {
        self@.len() == PCR_LENGTH
    }

    /// Wraps `value` as a register value; fails with a length error for any
    /// byte length other than 48.
    pub fn try_from(value: Vec<u8>) -> (r: Result<Pcr, PcrError>)
        ensures
            r is Ok <==> value@.len() == PCR_LENGTH,
            r matches Ok(p) ==> p@ == value@ && p.wf(),
            r matches Err(e) ==> e.spec_kind() == PcrErrorKind::Length,
    {
        if value.len() != PCR_LENGTH {
            return Err(Error::new(
                PcrErrorKind::Length,
                ErrorContext("A PCR must have a length of 48."),
            ));
        }
        Ok(Pcr(value))
    }

    /// The all-zero register value, mirroring the hardware's uninitialized
    /// state.
    pub fn zero() -> (r: Pcr)
        ensures
            r.wf(),
            r@ == Seq::<u8>::new(PCR_LENGTH as nat, |i: int| 0u8),
    {
        let mut bytes: Vec<u8> = Vec::new();
        for i in 0..PCR_LENGTH
            invariant
                bytes@.len() == i,
                forall|j: int| 0 <= j < i ==> bytes@[j] == 0u8,
        {
            bytes.push(0);
        }
        proof {
            assert(bytes@ =~= Seq::<u8>::new(PCR_LENGTH as nat, |i: int| 0u8));
        }
        Pcr(bytes)
    }

    /// The register value as a byte vector.
    pub fn to_vec(&self) -> (r: Vec<u8>)
        ensures
            r@ == self@,
    {
        self.0.clone()
    }

    /// The register value as a byte slice.
    pub fn as_bytes(&self) -> (r: &[u8])
        ensures
            r@ == self@,
    {
        self.0.as_slice()
    }
}

/// A complete register bank: one 48-byte value for every valid index.
#[derive(Clone, Debug, PartialEq, Eq)]
pub struct Pcrs {
    zero: Pcr,
    one: Pcr,
    two: Pcr,
    three: Pcr,
    four: Pcr,
    eight: Pcr,
}

impl View for Pcrs {
    type V = Map<int, Seq<u8>>;

    closed spec fn view(&self) -> Map<int, Seq<u8>> {
        map![
            0int => self.zero@,
            1int => self.one@,
            2int => self.two@,
            3int => self.three@,
            4int => self.four@,
            8int => self.eight@,
        ]
    }
}

/// Every valid index has a value, and every value holds exactly 48 bytes.
pub open spec fn pcrs_view_wf(m: Map<int, Seq<u8>>) -> bool {
    &&& m.dom() =~= set![0int, 1int, 2int, 3int, 4int, 8int]
    &&& forall|i: int| m.dom().contains(i) ==> (#[trigger] m[i]).len() == PCR_LENGTH
}

impl Pcrs {
    /// Every valid index has a value, and every value holds exactly 48 bytes.
    pub open spec fn wf(&self) -> bool {
        pcrs_view_wf(self@)
    }

    /// The register bank with every value all zeros.
    pub fn zeros() -> (r: Pcrs)
        ensures
            r.wf(),
            forall|i: int| r@.dom().contains(i) ==> r@[i] =~= Seq::<u8>::new(
                PCR_LENGTH as nat,
                |j: int| 0u8,
            ),
    {
        Pcrs {
            zero: Pcr::zero(),
            one: Pcr::zero(),
            two: Pcr::zero(),
            three: Pcr::zero(),
            four: Pcr::zero(),
            eight: Pcr::zero(),
        }
    }

    /// The register value at `index`; infallible because a `PcrIndex` always
    /// names an existing register.
    pub fn get(&self, index: PcrIndex) -> (r: &Pcr)
        ensures
            r@ == self@[index.spec_usize() as int],
    {
        match index {
            PcrIndex::Zero => &self.zero,
            PcrIndex::One => &self.one,
            PcrIndex::Two => &self.two,
            PcrIndex::Three => &self.three,
            PcrIndex::Four => &self.four,
            PcrIndex::Eight => &self.eight,
        }
    }

    /// Replaces the register value at `index`.
    pub fn set(&mut self, index: PcrIndex, pcr: Pcr)
        ensures
            final(self)@ =~= old(self)@.insert(index.spec_usize() as int, pcr@),
    {
        match index {
            PcrIndex::Zero => self.zero = pcr,
            PcrIndex::One => self.one = pcr,
            PcrIndex::Two => self.two = pcr,
            PcrIndex::Three => self.three = pcr,
            PcrIndex::Four => self.four = pcr,
            PcrIndex::Eight => self.eight = pcr,
        }
    }

    /// The register value at a numeric `index`, or an index error for the
    /// indices that do not exist on this platform.
    pub fn checked_get(&self, index: usize) -> (r: Result<&Pcr, PcrError>)
        ensures
            r is Ok <==> valid_pcr_index(index),
            r matches Ok(p) ==> p@ == self@[index as int],
            r matches Err(e) ==> e.spec_kind() == PcrErrorKind::Index,
    {
        match PcrIndex::try_from(index) {
            Ok(i) => Ok(self.get(i)),
            Err(e) => Err(e),
        }
    }

    /// Validates both index membership and the 48-byte length, then replaces
    /// the register value at `index`. On any error the bank is unchanged.
    pub fn checked_set(&mut self, index: usize, pcr: Vec<u8>) -> (r: Result<(), PcrError>)
        ensures
            r is Ok <==> valid_pcr_index(index) && pcr@.len() == PCR_LENGTH,
            r is Ok ==> final(self)@ =~= old(self)@.insert(index as int, pcr@),
            r is Err ==> final(self)@ == old(self)@,
            !valid_pcr_index(index) ==> (r matches Err(e) && e.spec_kind() == PcrErrorKind::Index),
            valid_pcr_index(index) && pcr@.len() != PCR_LENGTH ==> (r matches Err(e)
                && e.spec_kind() == PcrErrorKind::Length),
    {
        let index = match PcrIndex::try_from(index) {
            Ok(i) => i,
            Err(e) => {
                return Err(e);
            },
        };
        let pcr = match Pcr::try_from(pcr) {
            Ok(p) => p,
            Err(e) => {
                return Err(e);
            },
        };
        self.set(index, pcr);
        Ok(())
    }
}

/// What SHA-384 returns for the UTF-8 bytes of `seed`.
pub uninterp spec fn sha384_of(seed: Seq<char>) -> Seq<u8>;

/// Relies on `sha2::Sha384`: the digest is 48 bytes and depends on the input
/// string alone.
#[verifier::external_body]
fn sha384(seed: &str) -> (r: Vec<u8>)
    ensures
        r@ == sha384_of(seed@),
        r@.len() == PCR_LENGTH,
{
    let mut hasher = <sha2::Sha384 as sha2::Digest>::new();
    sha2::Digest::update(&mut hasher, seed.as_bytes());
    sha2::Digest::finalize(hasher).to_vec()
}

/// Whether a byte is an ASCII alphanumeric character: a digit or a letter.
pub open spec fn ascii_alphanumeric(b: u8) -> bool {
    (48 <= b && b <= 57) || (65 <= b && b <= 90) || (97 <= b && b <= 122)
}

/// Relies on `rand::thread_rng` with `Alphanumeric`: 48 random bytes,
/// mimicking the shape of a hex-rendered digest. The distribution draws
/// from digits and letters only, so every byte of every outcome is ASCII
/// alphanumeric; nothing more can be promised of the values.
#[verifier::external_body]
fn rand_pcr_bytes() -> (r: Vec<u8>)
    ensures
        r@.len() == PCR_LENGTH,
        forall|i: int| 0 <= i < r@.len() ==> ascii_alphanumeric(#[trigger] r@[i]),
{
    let rng = rand::thread_rng();
    rand::Rng::sample_iter(rng, &rand::distributions::Alphanumeric).take(PCR_LENGTH).collect()
}

/// The register bank that [`Pcrs::seed`] produces for `values`: start from
/// all zeros, then give each listed index the SHA-384 digest of its seed
/// string, later entries overriding earlier ones.
pub open spec fn seeded_pcrs(values: Seq<(PcrIndex, String)>) -> Map<int, Seq<u8>>
    decreases values.len(),
{
    if values.len() == 0 {
        zero_pcrs()
    } else {
        seeded_pcrs(values.drop_last()).insert(
            values.last().0.spec_usize() as int,
            sha384_of(values.last().1@),
        )
    }
}

/// The view of the all-zero register bank.
pub open spec fn zero_pcrs() -> Map<int, Seq<u8>> {
    map![
        0int => Seq::<u8>::new(PCR_LENGTH as nat, |j: int| 0u8),
        1int => Seq::<u8>::new(PCR_LENGTH as nat, |j: int| 0u8),
        2int => Seq::<u8>::new(PCR_LENGTH as nat, |j: int| 0u8),
        3int => Seq::<u8>::new(PCR_LENGTH as nat, |j: int| 0u8),
        4int => Seq::<u8>::new(PCR_LENGTH as nat, |j: int| 0u8),
        8int => Seq::<u8>::new(PCR_LENGTH as nat, |j: int| 0u8),
    ]
}

/// The register bank that [`Pcrs::from_entries`] produces: all zeros, with
/// each listed index replaced by its listed value, later entries overriding
/// earlier ones.
pub open spec fn entry_pcrs(values: Seq<(PcrIndex, Pcr)>) -> Map<int, Seq<u8>>
    decreases values.len(),
{
    if values.len() == 0 {
        zero_pcrs()
    } else {
        entry_pcrs(values.drop_last()).insert(
            values.last().0.spec_usize() as int,
            values.last().1@,
        )
    }
}

/// The register bank that [`Pcrs::try_from`] produces when every entry is
/// accepted.
pub open spec fn checked_entry_pcrs(values: Seq<(usize, Vec<u8>)>) -> Map<int, Seq<u8>>
    decreases values.len(),
{
    if values.len() == 0 {
        zero_pcrs()
    } else {
        checked_entry_pcrs(values.drop_last()).insert(
            values.last().0 as int,
            values.last().1@,
        )
    }
}

impl Pcrs {
    /// Every register seeded deterministically: each listed index holds the
    /// SHA-384 digest of its seed string, every omitted index stays all
    /// zeros. The same seed values always yield the same bank.
    pub fn seed(values: Vec<(PcrIndex, String)>) -> (r: Pcrs)
        ensures
            r.wf(),
            r@ =~= seeded_pcrs(values@),
    {
        let mut pcrs = Pcrs::zeros();
        proof {
            assert(values@.take(0) =~= Seq::<(PcrIndex, String)>::empty());
            assert(pcrs@ =~= zero_pcrs());
        }
        let n = values.len();
        for i in 0..n
            invariant
                n == values@.len(),
                pcrs.wf(),
                pcrs@ =~= seeded_pcrs(values@.take(i as int)),
        {
            let digest = sha384(values[i].1.as_str());
            let pcr = match Pcr::try_from(digest) {
                Ok(pcr) => pcr,
                Err(_) => {
                    proof {
                        assert(false);
                    }
                    Pcr::zero()
                },
            };
            pcrs.set(values[i].0, pcr);
            proof {
                assert(values@.take(i + 1).drop_last() =~= values@.take(i as int));
                assert(values@.take(i + 1).last() == values@[i as int]);
            }
        }
        proof {
            assert(values@.take(n as int) =~= values@);
        }
        pcrs
    }

    /// Every register filled with random ASCII alphanumeric bytes, for test
    /// diversity. Two calls almost always differ; beyond the bank's shape
    /// and the bytes being alphanumeric, nothing is promised of the values.
    pub fn rand() -> (r: Pcrs)
        ensures
            r.wf(),
            forall|i: int, j: int|
                r@.dom().contains(i) && 0 <= j < r@[i].len() ==> ascii_alphanumeric(
                    #[trigger] r@[i][j],
                ),
    {
        let r = Pcrs {
            zero: Self::rand_pcr(),
            one: Self::rand_pcr(),
            two: Self::rand_pcr(),
            three: Self::rand_pcr(),
            four: Self::rand_pcr(),
            eight: Self::rand_pcr(),
        };
        proof {
            assert forall|i: int, j: int|
                r@.dom().contains(i) && 0 <= j < r@[i].len() implies ascii_alphanumeric(
                r@[i][j],
            ) by {
                assert(r@.dom() =~= set![0int, 1int, 2int, 3int, 4int, 8int]);
            }
        }
        r
    }

    fn rand_pcr() -> (r: Pcr)
        ensures
            r.wf(),
            forall|i: int| 0 <= i < r@.len() ==> ascii_alphanumeric(#[trigger] r@[i]),
    {
        match Pcr::try_from(rand_pcr_bytes()) {
            Ok(pcr) => pcr,
            Err(_) => {
                proof {
                    assert(false);
                }
                Pcr::zero()
            },
        }
    }

    /// A bank built from pre-generated register values: all zeros, with each
    /// listed index replaced, later entries overriding earlier ones.
    pub fn from_entries(values: Vec<(PcrIndex, Pcr)>) -> (r: Pcrs)
        requires
            forall|i: int| 0 <= i < values@.len() ==> (#[trigger] values@[i]).1.wf(),
        ensures
            r.wf(),
            r@ =~= entry_pcrs(values@),
    {
        let mut pcrs = Pcrs::zeros();
        proof {
            assert(values@.take(0) =~= Seq::<(PcrIndex, Pcr)>::empty());
            assert(pcrs@ =~= zero_pcrs());
        }
        let n = values.len();
        for i in 0..n
            invariant
                n == values@.len(),
                forall|k: int| 0 <= k < values@.len() ==> (#[trigger] values@[k]).1.wf(),
                pcrs.wf(),
                pcrs@ =~= entry_pcrs(values@.take(i as int)),
        {
            let index = values[i].0;
            let pcr = match Pcr::try_from(values[i].1.to_vec()) {
                Ok(pcr) => pcr,
                Err(_) => {
                    proof {
                        assert(false);
                    }
                    Pcr::zero()
                },
            };
            pcrs.set(index, pcr);
            proof {
                assert(values@.take(i + 1).drop_last() =~= values@.take(i as int));
                assert(values@.take(i + 1).last() == values@[i as int]);
            }
        }
        proof {
            assert(values@.take(n as int) =~= values@);
        }
        pcrs
    }

    /// A bank built from numeric entries: every index must be valid and every
    /// value 48 bytes, else the matching error; on success, all zeros with
    /// each listed index replaced.
    pub fn try_from(values: Vec<(usize, Vec<u8>)>) -> (r: Result<Pcrs, PcrError>)
        ensures
            r is Ok <==> (forall|i: int| 0 <= i < values@.len() ==> valid_pcr_index(
                (#[trigger] values@[i]).0,
            ) && values@[i].1@.len() == PCR_LENGTH),
            r matches Ok(pcrs) ==> pcrs.wf() && pcrs@ =~= checked_entry_pcrs(values@),
            r matches Err(e) ==> e.spec_kind() == PcrErrorKind::Index || e.spec_kind()
                == PcrErrorKind::Length,
    {
        let mut pcrs = Pcrs::zeros();
        proof {
            assert(values@.take(0) =~= Seq::<(usize, Vec<u8>)>::empty());
            assert(pcrs@ =~= zero_pcrs());
        }
        let n = values.len();
        for i in 0..n
            invariant
                n == values@.len(),
                pcrs.wf(),
                pcrs@ =~= checked_entry_pcrs(values@.take(i as int)),
                forall|k: int| 0 <= k < i ==> valid_pcr_index((#[trigger] values@[k]).0)
                    && values@[k].1@.len() == PCR_LENGTH,
        {
            let index = values[i].0;
            let value = values[i].1.clone();
            match pcrs.checked_set(index, value) {
                Ok(_) => {},
                Err(e) => {
                    return Err(e);
                },
            }
            proof {
                assert(values@.take(i + 1).drop_last() =~= values@.take(i as int));
                assert(values@.take(i + 1).last() == values@[i as int]);
            }
        }
        proof {
            assert(values@.take(n as int) =~= values@);
        }
        Ok(pcrs)
    }

    /// The bank in its wire shape: one `(index, bytes)` pair for every valid
    /// index, in ascending index order.
    pub fn to_wire(&self) -> (r: Vec<(u64, Vec<u8>)>)
        ensures
            pcr_wire_view(r@) =~= wire_of(self@),
    {
        let mut wire: Vec<(u64, Vec<u8>)> = Vec::new();
        wire.push((0, self.zero.to_vec()));
        wire.push((1, self.one.to_vec()));
        wire.push((2, self.two.to_vec()));
        wire.push((3, self.three.to_vec()));
        wire.push((4, self.four.to_vec()));
        wire.push((8, self.eight.to_vec()));
        wire
    }
}

/// The views of a wire-shaped register list, pairwise.
pub open spec fn pcr_wire_view(s: Seq<(u64, Vec<u8>)>) -> Seq<(u64, Seq<u8>)> {
    s.map_values(|p: (u64, Vec<u8>)| (p.0, p.1@))
}

/// The wire shape of a register bank: its six values in ascending index
/// order.
pub open spec fn wire_of(m: Map<int, Seq<u8>>) -> Seq<(u64, Seq<u8>)> {
    seq![
        (0u64, m[0]),
        (1u64, m[1]),
        (2u64, m[2]),
        (3u64, m[3]),
        (4u64, m[4]),
        (8u64, m[8]),
    ]
}

/// Law: for every valid index, setting a 48-byte value then getting that
/// index hands the same bytes back, and the bank stays well formed. The
/// premises are what [`Pcrs::checked_set`] ensures of a successful update;
/// the conclusion is what [`Pcrs::checked_get`] then returns.
pub proof fn lemma_checked_set_get_round_trip(
    before: Map<int, Seq<u8>>,
    after: Map<int, Seq<u8>>,
    index: usize,
    bytes: Seq<u8>,
)
    requires
        pcrs_view_wf(before),
        valid_pcr_index(index),
        bytes.len() == PCR_LENGTH,
        after == before.insert(index as int, bytes),
    ensures
        after[index as int] == bytes,
        pcrs_view_wf(after),
{
    assert(after.dom() =~= before.dom().insert(index as int));
    assert(after.dom() =~= set![0int, 1int, 2int, 3int, 4int, 8int]);
}

/// Law: seeding is deterministic — two banks seeded from the same values
/// are identical. The premises are what [`Pcrs::seed`] ensures of each of
/// two calls on the same list.
pub proof fn lemma_seed_deterministic(
    values: Seq<(PcrIndex, String)>,
    first: Map<int, Seq<u8>>,
    second: Map<int, Seq<u8>>,
)
    requires
        first == seeded_pcrs(values),
        second == seeded_pcrs(values),
    ensures
        first == second,
{
}

impl Default for Pcrs {
    /// The default register bank is all zeros.
    fn default() -> (r: Pcrs)
        ensures
            r.wf(),
            forall|i: int| r@.dom().contains(i) ==> r@[i] =~= Seq::<u8>::new(
                PCR_LENGTH as nat,
                |j: int| 0u8,
            ),
    {
        Pcrs::zeros()
    }
}

} // verus!
