//! Deterministic hash noise: a fixed 256-entry permutation table and the
//! hash-and-combine scheme that turns a 2-D integer coordinate into a byte.

use vstd::prelude::*;

verus! {

/// Side length of the square noise field, and the length of the
/// permutation table.
pub const NOISE_TEX_SIZE: usize = 256;

/// The noise seed: a fixed permutation of the byte values 0..=255.
pub const PERMUTATIONS: [u8; 256] = [
    156, 165, 73, 109, 61, 162, 241, 239, 76, 58, 122, 112, 206, 210, 129, 42,
    75, 195, 226, 92, 128, 82, 249, 170, 174, 225, 152, 242, 64, 9, 153, 160,
    236, 77, 163, 150, 126, 142, 202, 48, 101, 81, 91, 145, 50, 124, 36, 117,
    47, 253, 207, 183, 252, 146, 60, 26, 28, 63, 32, 154, 134, 193, 199, 171,
    198, 107, 161, 46, 143, 56, 168, 138, 43, 74, 208, 89, 1, 20, 148, 215,
    135, 17, 45, 155, 100, 247, 224, 95, 219, 7, 121, 10, 177, 37, 62, 214,
    194, 203, 35, 25, 182, 228, 103, 186, 68, 59, 237, 21, 40, 158, 133, 85,
    187, 34, 44, 57, 93, 30, 127, 151, 130, 172, 222, 190, 97, 33, 188, 67,
    31, 157, 13, 41, 6, 175, 230, 137, 131, 5, 213, 54, 246, 78, 18, 102,
    19, 123, 229, 191, 180, 192, 98, 141, 96, 104, 79, 116, 251, 105, 118, 218,
    167, 51, 115, 120, 49, 227, 216, 220, 233, 178, 52, 94, 223, 71, 245, 108,
    90, 243, 147, 72, 80, 169, 185, 209, 15, 139, 99, 204, 23, 29, 140, 173,
    125, 244, 196, 66, 87, 24, 84, 234, 132, 119, 184, 238, 250, 16, 106, 211,
    201, 114, 8, 176, 11, 39, 144, 248, 255, 12, 217, 149, 110, 113, 111, 231,
    53, 2, 181, 3, 235, 14, 55, 136, 232, 200, 83, 205, 221, 70, 197, 38,
    189, 86, 22, 164, 65, 27, 166, 254, 240, 159, 212, 69, 0, 4, 179, 88,
];

/// The permutation table entry at index `i`.
pub open spec fn perm_at(i: int) -> u8
    recommends
        0 <= i < 256,
{
    PERMUTATIONS[i]
}

/// What `hash` returns: the table entry selected by `n` modulo the
/// table length.
pub open spec fn hash_spec(n: int) -> u8
    recommends
        0 <= n,
{
    perm_at(n % 256)
}

/// Look a non-negative integer up in the permutation table, wrapping
/// modulo the table length.
pub fn hash(n: usize) -> (r: u8)
    ensures
        r == hash_spec(n as int),
{
    PERMUTATIONS[n % 256]
}

/// What `generate_texture_point` returns for the coordinate `(x, y)`:
/// the hash of `x`, combined with `y` by wraparound addition modulo 256,
/// hashed once more.
pub open spec fn noise_spec(x: int, y: int) -> u8
    recommends
        0 <= x,
        0 <= y,
{
    perm_at((hash_spec(x) + y) % 256)
}

/// The noise byte at a single grid coordinate.  The combining addition
/// wraps modulo 256 by design; it never rejects a coordinate.
pub fn generate_texture_point(coord: (usize, usize)) -> (r: u8)
    ensures
        r == noise_spec(coord.0 as int, coord.1 as int),
{
    let a = hash(coord.0);
    let val: usize = (a as usize + coord.1 % 256) % 256;
    let r = hash(val);
    proof {
        let x = coord.0 as int;
        let y = coord.1 as int;
        vstd::arithmetic::div_mod::lemma_add_mod_noop_right(hash_spec(x) as int, y, 256);
        vstd::arithmetic::div_mod::lemma_small_mod(val as nat, 256);
    }
    r
}

/// A grid `g` is the noise field of side length `size`: square, and each
/// cell holds the noise byte of its own coordinate.
pub open spec fn is_noise_field(g: Seq<Seq<u8>>, size: int) -> bool {
    &&& g.len() == size
    &&& forall|x: int| 0 <= x < size ==> (#[trigger] g[x]).len() == size
    &&& forall|x: int, y: int|
        0 <= x < size && 0 <= y < size ==> #[trigger] g[x][y] == noise_spec(x, y)
}

/// Generate the square noise field of the given side length: every cell
/// `(x, y)` is `noise_spec(x, y)`.  Deterministic: the result is a pure
/// function of `size`.
pub fn generate_field(size: usize) -> (t: Vec<Vec<u8>>)
    ensures
        is_noise_field(t.deep_view(), size as int),
{
    let mut texture: Vec<Vec<u8>> = Vec::new();
    for x in 0..size
        invariant
            texture.len() == x,
            forall|i: int| 0 <= i < x ==> (#[trigger] texture[i])@.len() == size,
            forall|i: int, j: int|
                0 <= i < x && 0 <= j < size
                    ==> #[trigger] texture[i]@[j] == noise_spec(i, j),
    {
        let mut row: Vec<u8> = Vec::new();
        for y in 0..size
            invariant
                row.len() == y,
                forall|j: int| 0 <= j < y ==> #[trigger] row[j] == noise_spec(x as int, j),
        {
            row.push(generate_texture_point((x, y)));
        }
        texture.push(row);
    }
    proof {
        assert forall|i: int| 0 <= i < size implies
            (#[trigger] texture.deep_view()[i]) == texture@[i]@ by {}
    }
    texture
}

/// The noise field used as the startup texture: side length
/// `NOISE_TEX_SIZE`.
pub fn generate_texture() -> (t: Vec<Vec<u8>>)
    ensures
        is_noise_field(t.deep_view(), NOISE_TEX_SIZE as int),
{
    generate_field(NOISE_TEX_SIZE)
}

/// The inverse of the permutation table: the entry at index `v` is the
/// unique index at which the byte value `v` stands in `PERMUTATIONS`.
/// It exists only to witness the permutation law below.
const INVERSE: [u8; 256] = [
    252, 76, 225, 227, 253, 137, 132, 89, 210, 29, 91, 212, 217, 130, 229, 184,
    205, 81, 142, 144, 77, 107, 242, 188, 197, 99, 55, 245, 56, 189, 117, 128,
    58, 125, 113, 98, 46, 93, 239, 213, 108, 131, 15, 72, 114, 82, 67, 48,
    39, 164, 44, 161, 170, 224, 139, 230, 69, 115, 9, 105, 54, 4, 94, 57,
    28, 244, 195, 127, 104, 251, 237, 173, 179, 2, 73, 16, 8, 33, 141, 154,
    180, 41, 21, 234, 198, 111, 241, 196, 255, 75, 176, 42, 19, 116, 171, 87,
    152, 124, 150, 186, 84, 40, 143, 102, 153, 157, 206, 65, 175, 3, 220, 222,
    11, 221, 209, 162, 155, 47, 158, 201, 163, 90, 10, 145, 45, 192, 36, 118,
    20, 14, 120, 136, 200, 110, 60, 80, 231, 135, 71, 185, 190, 151, 37, 68,
    214, 43, 53, 178, 78, 219, 35, 119, 26, 30, 59, 83, 0, 129, 109, 249,
    31, 66, 5, 34, 243, 1, 246, 160, 70, 181, 23, 63, 121, 191, 24, 133,
    211, 92, 169, 254, 148, 226, 100, 51, 202, 182, 103, 112, 126, 240, 123, 147,
    149, 61, 96, 17, 194, 238, 64, 62, 233, 208, 38, 97, 187, 235, 12, 50,
    74, 183, 13, 207, 250, 138, 95, 79, 166, 218, 159, 88, 167, 236, 122, 172,
    86, 25, 18, 165, 101, 146, 134, 223, 232, 168, 199, 228, 32, 106, 203, 7,
    248, 6, 27, 177, 193, 174, 140, 85, 215, 22, 204, 156, 52, 49, 247, 216,
];

/// The inverse table entry for the byte value `v`.
spec fn inv_at(v: int) -> u8
    recommends
        0 <= v < 256,
{
    INVERSE[v]
}

/// The byte value `v` occurs somewhere in the permutation table.
pub open spec fn table_contains(v: u8) -> bool {
    exists|i: int| 0 <= i < 256 && #[trigger] perm_at(i) == v
}

/// Law: the permutation table holds each byte value exactly once — no
/// two indices share a value, and every byte value occurs at some index.
pub proof fn lemma_table_is_permutation()
    ensures
        forall|i: int, j: int|
            0 <= i < 256 && 0 <= j < 256 && i != j ==> perm_at(i) != perm_at(j),
        forall|v: u8| #[trigger] table_contains(v),
{
    assert forall|i: int| 0 <= i < 256 implies
        #[trigger] inv_at(perm_at(i) as int) as int == i by {}
    assert forall|i: int| 0 <= i < 256 implies
        #[trigger] perm_at(inv_at(i) as int) as int == i by {}
    assert forall|i: int, j: int|
        0 <= i < 256 && 0 <= j < 256 && i != j implies perm_at(i) != perm_at(j) by {
        assert(inv_at(perm_at(i) as int) as int == i);
        assert(inv_at(perm_at(j) as int) as int == j);
    }
    assert forall|v: u8| #[trigger] table_contains(v) by {
        assert(perm_at(inv_at(v as int) as int) as int == v as int);
    }
}

/// Law: noise generation is deterministic — any two grids of one side
/// length that are both the noise field of that length are equal,
/// byte for byte.
pub proof fn lemma_field_deterministic(g1: Seq<Seq<u8>>, g2: Seq<Seq<u8>>, size: int)
    requires
        is_noise_field(g1, size),
        is_noise_field(g2, size),
    ensures
        g1 == g2,
{
    assert forall|x: int| 0 <= x < size implies g1[x] == g2[x] by {
        assert forall|y: int| 0 <= y < size implies g1[x][y] == g2[x][y] by {}
        assert(g1[x] =~= g2[x]);
    }
    assert(g1 =~= g2);
}

} // verus!
