use vstd::prelude::*;

verus! {

/// A 128-bit identifier minted when a database is provisioned.
#[derive(Clone, Copy, Debug, PartialEq, Eq, Structural)]
pub struct DatabaseId {
    pub value: u128,
}

/// The character of one hexadecimal digit, lower case.
pub open spec fn hex_digit(d: nat) -> char {
    seq!['0', '1', '2', '3', '4', '5', '6', '7', '8', '9', 'a', 'b', 'c', 'd', 'e', 'f'][(d % 16) as int]
}

/// The last `n` hexadecimal digits of `v`, most significant first.
pub open spec fn hex_of(v: nat, n: nat) -> Seq<char>
    decreases n,
{
    if n == 0 {
        seq![]
    } else {
        hex_of(v / 16, (n - 1) as nat).push(hex_digit(v % 16))
    }
}

pub open spec fn pow16(n: nat) -> nat
    decreases n,
{
    if n == 0 {
        1
    } else {
        16 * pow16((n - 1) as nat)
    }
}

/// The prefix that every database and role name of this library starts with.
pub open spec fn name_prefix() -> Seq<char> {
    "db_pool_"@
}

/// The name of the database, and of its attached role, for an id.
pub open spec fn db_name_of(id: DatabaseId) -> Seq<char> {
    name_prefix() + hex_of(id.value as nat, 32)
}

/// Relies on uuid's `Uuid::from_u128` and its `simple` formatter: the value as
/// 32 lower-case hexadecimal digits, most significant first.
#[verifier::external_body]
fn simple_hex(value: u128) -> (r: String)
    ensures
        r@ == hex_of(value as nat, 32),
{
    uuid::Uuid::from_u128(value).simple().to_string()
}

/// Whether `v` carries the marks of a random (version 4) identifier: version
/// nibble 4 and the RFC 4122 variant bits `10`.
pub open spec fn is_v4(v: u128) -> bool {
    (v >> 76u128) & 0xfu128 == 4u128 && (v >> 62u128) & 0x3u128 == 2u128
}

/// Relies on uuid's `Uuid::new_v4` and `as_u128`: a random identifier whose
/// version and variant bits are set; the other bits are random.
#[verifier::external_body]
fn random_value() -> (r: u128)
    ensures
        is_v4(r),
{
    uuid::Uuid::new_v4().as_u128()
}

impl DatabaseId {
    /// Mints a fresh random identifier.
    pub fn generate() -> (r: DatabaseId)
        ensures
            is_v4(r.value),
    {
        DatabaseId { value: random_value() }
    }

    /// The database name, which is also the name of its attached role.
    pub fn db_name(&self) -> (r: String)
        ensures
            r@ == db_name_of(*self),
    {
        let mut name = String::from_str("db_pool_");
        let digits = simple_hex(self.value);
        name.append(digits.as_str());
        name
    }
}

proof fn lemma_hex_digit_injective(a: nat, b: nat)
    requires
        a < 16,
        b < 16,
        hex_digit(a) == hex_digit(b),
    ensures
        a == b,
{
}

proof fn lemma_hex_injective(a: nat, b: nat, n: nat)
    requires
        a < pow16(n),
        b < pow16(n),
        hex_of(a, n) == hex_of(b, n),
    ensures
        a == b,
    decreases n,
{
    if n > 0 {
        let m = (n - 1) as nat;
        let sa = hex_of(a, n);
        let sb = hex_of(b, n);
        assert(sa[sa.len() - 1] == hex_digit(a % 16));
        assert(sb[sb.len() - 1] == hex_digit(b % 16));
        lemma_hex_digit_injective(a % 16, b % 16);
        assert(sa.drop_last() == hex_of(a / 16, m));
        assert(sb.drop_last() == hex_of(b / 16, m));
        lemma_hex_injective(a / 16, b / 16, m);
    }
}

proof fn lemma_u128_fits_32_digits(v: u128)
    ensures
        (v as nat) < pow16(32),
{
    reveal_with_fuel(pow16, 33);
    assert(pow16(32) == 0x1_0000_0000_0000_0000_0000_0000_0000_0000nat);
}

/// Two ids with the same derived name are the same id: name derivation is
/// injective, so distinct ids never share a database or role name.
pub proof fn lemma_db_name_injective(a: DatabaseId, b: DatabaseId)
    ensures
        db_name_of(a) == db_name_of(b) <==> a == b,
{
    if db_name_of(a) == db_name_of(b) {
        let p = name_prefix().len();
        assert(hex_of(a.value as nat, 32) == db_name_of(a).subrange(p as int, db_name_of(a).len() as int));
        assert(hex_of(b.value as nat, 32) == db_name_of(b).subrange(p as int, db_name_of(b).len() as int));
        lemma_u128_fits_32_digits(a.value);
        lemma_u128_fits_32_digits(b.value);
        lemma_hex_injective(a.value as nat, b.value as nat, 32);
    }
}

/// Ids that are pairwise distinct give pairwise distinct names.
pub proof fn lemma_names_pairwise_distinct(ids: Seq<DatabaseId>)
    requires
        ids.no_duplicates(),
    ensures
        ids.map_values(|id: DatabaseId| db_name_of(id)).no_duplicates(),
{
    let names = ids.map_values(|id: DatabaseId| db_name_of(id));
    assert forall|i: int, j: int| 0 <= i < names.len() && 0 <= j < names.len() && i != j
        implies names[i] != names[j] by {
        lemma_db_name_injective(ids[i], ids[j]);
    }
}

} // verus!
