//! Sets of fields that a platform cannot provide, held as the bits of one word.
use vstd::prelude::*;

use crate::request::ProcessField;

verus! {

/// The bit that stands for `field`, or no bit for memory, which every platform provides.
pub open spec fn flag(field: ProcessField) -> u16 {
    match field {
        ProcessField::User => 1,
        ProcessField::Cwd => 2,
        ProcessField::Root => 4,
        ProcessField::Environ => 8,
        ProcessField::Cmd => 16,
        ProcessField::Exe => 32,
        ProcessField::DiskUsage => 64,
        ProcessField::Tasks => 128,
        ProcessField::GpuUsage => 256,
        ProcessField::GpuMemory => 512,
        ProcessField::Memory => 0,
    }
}

/// The fields whose bit is set in `bits`.
pub open spec fn fields_of(bits: u16) -> Set<ProcessField> {
    Set::new(|field: ProcessField| bits & flag(field) != 0)
}

/// Whether `bit` is one of the bits that stand for a field, or none.
spec fn is_flag(bit: u16) -> bool {
    bit == 0 || bit == 1 || bit == 2 || bit == 4 || bit == 8 || bit == 16 || bit == 32 || bit == 64
        || bit == 128 || bit == 256 || bit == 512
}

proof fn lemma_flags_disjoint(a: u16, b: u16)
    by (bit_vector)
    requires
        is_flag(a),
        is_flag(b),
    ensures
        a & b != 0 <==> a == b && a != 0,
{
}

/// The bit of a field, taken as a word, holds that field alone.
proof fn lemma_single_flag(field: ProcessField)
    requires
        field != ProcessField::Memory,
    ensures
        fields_of(flag(field)) == set![field],
{
    assert forall|other: ProcessField| #[trigger]
        fields_of(flag(field)).contains(other) <==> set![field].contains(other) by {
        lemma_flags_disjoint(flag(field), flag(other));
    }
    assert(fields_of(flag(field)) =~= set![field]);
}

/// One word holds the bits of another exactly when it holds its fields.
proof fn lemma_bits_held(a: u16, b: u16)
    requires
        b < 1024,
    ensures
        a & b == b <==> fields_of(b).subset_of(fields_of(a)),
{
    if a & b == b {
        assert forall|field: ProcessField| #[trigger]
            fields_of(b).contains(field) implies fields_of(a).contains(field) by {
            let m = flag(field);
            assert(a & m != 0) by (bit_vector)
                requires
                    a & b == b,
                    b & m != 0,
            ;
        }
    }
    if fields_of(b).subset_of(fields_of(a)) {
        let inner = fields_of(b);
        let outer = fields_of(a);
        assert(inner.contains(ProcessField::User) ==> outer.contains(ProcessField::User));
        assert(inner.contains(ProcessField::Cwd) ==> outer.contains(ProcessField::Cwd));
        assert(inner.contains(ProcessField::Root) ==> outer.contains(ProcessField::Root));
        assert(inner.contains(ProcessField::Environ) ==> outer.contains(ProcessField::Environ));
        assert(inner.contains(ProcessField::Cmd) ==> outer.contains(ProcessField::Cmd));
        assert(inner.contains(ProcessField::Exe) ==> outer.contains(ProcessField::Exe));
        assert(inner.contains(ProcessField::DiskUsage) ==> outer.contains(ProcessField::DiskUsage));
        assert(inner.contains(ProcessField::Tasks) ==> outer.contains(ProcessField::Tasks));
        assert(inner.contains(ProcessField::GpuUsage) ==> outer.contains(ProcessField::GpuUsage));
        assert(inner.contains(ProcessField::GpuMemory) ==> outer.contains(ProcessField::GpuMemory));
        assert(a & b == b) by (bit_vector)
            requires
                b < 1024,
                b & 1 != 0 ==> a & 1 != 0,
                b & 2 != 0 ==> a & 2 != 0,
                b & 4 != 0 ==> a & 4 != 0,
                b & 8 != 0 ==> a & 8 != 0,
                b & 16 != 0 ==> a & 16 != 0,
                b & 32 != 0 ==> a & 32 != 0,
                b & 64 != 0 ==> a & 64 != 0,
                b & 128 != 0 ==> a & 128 != 0,
                b & 256 != 0 ==> a & 256 != 0,
                b & 512 != 0 ==> a & 512 != 0,
        ;
    }
}

/// Fields that a platform can never provide.
///
/// A field in the set is not reported with a made-up value: its value is left untouched, or
/// absent. The set documents the gap and spares useless system calls.
#[derive(Clone, Copy, Debug, PartialEq, Eq, Structural)]
pub struct UnsupportedFields {
    bits: u16,
}

impl View for UnsupportedFields {
    type V = Set<ProcessField>;

    /// The fields in the set.
    closed spec fn view(&self) -> Set<ProcessField> {
        fields_of(self.bits)
    }
}

impl UnsupportedFields {
    /// Only bits that stand for a field are set.
    #[verifier::type_invariant]
    spec fn known_bits(self) -> bool {
        self.bits < 1024
    }

    /// The empty set.
    pub fn empty() -> (r: Self)
        ensures
            r@ == Set::<ProcessField>::empty(),
    {
        assert forall|field: ProcessField| !(#[trigger] fields_of(0).contains(field)) by {
            let m = flag(field);
            assert(0u16 & m == 0) by (bit_vector);
        }
        assert(fields_of(0) =~= Set::<ProcessField>::empty());
        UnsupportedFields { bits: 0 }
    }

    /// The set that holds only the owner of the process.
    pub fn user() -> (r: Self)
        ensures
            r@ == set![ProcessField::User],
    {
        proof {
            lemma_single_flag(ProcessField::User);
        }
        UnsupportedFields { bits: 1 }
    }

    /// The set that holds only the current working directory.
    pub fn cwd() -> (r: Self)
        ensures
            r@ == set![ProcessField::Cwd],
    {
        proof {
            lemma_single_flag(ProcessField::Cwd);
        }
        UnsupportedFields { bits: 2 }
    }

    /// The set that holds only the root directory.
    pub fn root() -> (r: Self)
        ensures
            r@ == set![ProcessField::Root],
    {
        proof {
            lemma_single_flag(ProcessField::Root);
        }
        UnsupportedFields { bits: 4 }
    }

    /// The set that holds only the environment.
    pub fn environ() -> (r: Self)
        ensures
            r@ == set![ProcessField::Environ],
    {
        proof {
            lemma_single_flag(ProcessField::Environ);
        }
        UnsupportedFields { bits: 8 }
    }

    /// The set that holds only the command line.
    pub fn cmd() -> (r: Self)
        ensures
            r@ == set![ProcessField::Cmd],
    {
        proof {
            lemma_single_flag(ProcessField::Cmd);
        }
        UnsupportedFields { bits: 16 }
    }

    /// The set that holds only the path of the executable.
    pub fn exe() -> (r: Self)
        ensures
            r@ == set![ProcessField::Exe],
    {
        proof {
            lemma_single_flag(ProcessField::Exe);
        }
        UnsupportedFields { bits: 32 }
    }

    /// The set that holds only disk activity.
    pub fn disk_usage() -> (r: Self)
        ensures
            r@ == set![ProcessField::DiskUsage],
    {
        proof {
            lemma_single_flag(ProcessField::DiskUsage);
        }
        UnsupportedFields { bits: 64 }
    }

    /// The set that holds only process tasks (only meaningful on Linux).
    pub fn tasks() -> (r: Self)
        ensures
            r@ == set![ProcessField::Tasks],
    {
        proof {
            lemma_single_flag(ProcessField::Tasks);
        }
        UnsupportedFields { bits: 128 }
    }

    /// The set that holds only GPU usage.
    pub fn gpu_usage() -> (r: Self)
        ensures
            r@ == set![ProcessField::GpuUsage],
    {
        proof {
            lemma_single_flag(ProcessField::GpuUsage);
        }
        UnsupportedFields { bits: 256 }
    }

    /// The set that holds only GPU memory use.
    pub fn gpu_memory() -> (r: Self)
        ensures
            r@ == set![ProcessField::GpuMemory],
    {
        proof {
            lemma_single_flag(ProcessField::GpuMemory);
        }
        UnsupportedFields { bits: 512 }
    }

    /// The fields of both sets.
    pub fn union(self, other: Self) -> (r: Self)
        ensures
            r@ == self@.union(other@),
    {
        proof {
            use_type_invariant(&self);
            use_type_invariant(&other);
            let a = self.bits;
            let b = other.bits;
            assert(a | b < 1024) by (bit_vector)
                requires
                    a < 1024,
                    b < 1024,
            ;
            assert forall|field: ProcessField| #[trigger]
                fields_of(a | b).contains(field) <==> self@.union(other@).contains(field) by {
                let m = flag(field);
                assert((a | b) & m != 0 <==> a & m != 0 || b & m != 0) by (bit_vector);
            }
            assert(fields_of(a | b) =~= self@.union(other@));
        }
        UnsupportedFields { bits: self.bits | other.bits }
    }

    /// Whether every field of `other` is in the set.
    pub fn contains(&self, other: Self) -> (r: bool)
        ensures
            r == other@.subset_of(self@),
    {
        proof {
            use_type_invariant(&other);
            lemma_bits_held(self.bits, other.bits);
        }
        self.bits & other.bits == other.bits
    }

    /// Whether `field` is in the set.
    pub fn has(&self, field: ProcessField) -> (r: bool)
        ensures
            r == self@.contains(field),
    {
        let single = match field {
            ProcessField::User => UnsupportedFields::user(),
            ProcessField::Cwd => UnsupportedFields::cwd(),
            ProcessField::Root => UnsupportedFields::root(),
            ProcessField::Environ => UnsupportedFields::environ(),
            ProcessField::Cmd => UnsupportedFields::cmd(),
            ProcessField::Exe => UnsupportedFields::exe(),
            ProcessField::DiskUsage => UnsupportedFields::disk_usage(),
            ProcessField::Tasks => UnsupportedFields::tasks(),
            ProcessField::GpuUsage => UnsupportedFields::gpu_usage(),
            ProcessField::GpuMemory => UnsupportedFields::gpu_memory(),
            ProcessField::Memory => {
                proof {
                    law_memory_is_always_provided(*self);
                }
                return false;
            },
        };
        assert(single@.contains(field));
        self.contains(single)
    }

    /// The set as a word, one bit for each field.
    pub fn bits(&self) -> (r: u16)
        ensures
            r < 1024,
            fields_of(r) == self@,
    {
        proof {
            use_type_invariant(self);
        }
        self.bits
    }

    /// The set of the fields whose bit is set in `bits`; other bits are ignored.
    pub fn from_bits_truncate(bits: u16) -> (r: Self)
        ensures
            r@ == fields_of(bits),
    {
        proof {
            assert(bits & 1023 < 1024) by (bit_vector);
            assert forall|field: ProcessField| #[trigger]
                fields_of(bits & 1023).contains(field) <==> fields_of(bits).contains(field) by {
                let m = flag(field);
                assert((bits & 1023) & m != 0 <==> bits & m != 0) by (bit_vector)
                    requires
                        is_flag(m),
                ;
            }
            assert(fields_of(bits & 1023) =~= fields_of(bits));
        }
        UnsupportedFields { bits: bits & 1023 }
    }
}

impl Default for UnsupportedFields {
    /// The empty set.
    fn default() -> (r: Self)
        ensures
            r@ == Set::<ProcessField>::empty(),
    {
        UnsupportedFields::empty()
    }
}

/// No platform lacks memory use: it is in no set.
pub proof fn law_memory_is_always_provided(unsupported: UnsupportedFields)
    ensures
        !unsupported@.contains(ProcessField::Memory),
{
    let bits = unsupported.bits;
    assert(bits & 0 == 0) by (bit_vector);
}

/// A word without bits that stand for no field is determined by the fields that it holds, so a
/// set survives the way through its word.
pub proof fn law_bits_are_their_fields(a: u16, b: u16)
    requires
        a < 1024,
        b < 1024,
        fields_of(a) == fields_of(b),
    ensures
        a == b,
{
    lemma_bits_held(a, b);
    lemma_bits_held(b, a);
    assert(a == b) by (bit_vector)
        requires
            a & b == b,
            b & a == a,
    ;
}

/// Each field but memory has a bit of its own: a word holds the field exactly if the bit is set.
pub proof fn law_each_field_has_its_bit(bits: u16)
    ensures
        fields_of(bits).contains(ProcessField::User) <==> bits & 1 != 0,
        fields_of(bits).contains(ProcessField::Cwd) <==> bits & 2 != 0,
        fields_of(bits).contains(ProcessField::Root) <==> bits & 4 != 0,
        fields_of(bits).contains(ProcessField::Environ) <==> bits & 8 != 0,
        fields_of(bits).contains(ProcessField::Cmd) <==> bits & 16 != 0,
        fields_of(bits).contains(ProcessField::Exe) <==> bits & 32 != 0,
        fields_of(bits).contains(ProcessField::DiskUsage) <==> bits & 64 != 0,
        fields_of(bits).contains(ProcessField::Tasks) <==> bits & 128 != 0,
        fields_of(bits).contains(ProcessField::GpuUsage) <==> bits & 256 != 0,
        fields_of(bits).contains(ProcessField::GpuMemory) <==> bits & 512 != 0,
        !fields_of(bits).contains(ProcessField::Memory),
{
    assert(bits & 0 == 0) by (bit_vector);
}

} // verus!
