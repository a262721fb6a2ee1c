//! The alignments that an in-place storage can be given.
//!
//! An in-place storage is aligned by a field of no size whose type has the
//! alignment asked for. Those types are `elain`'s; each is kept in a marker
//! of this module, one for every alignment that `elain` offers.

use vstd::prelude::*;

verus! {

/// The alignment of `N` bytes, as a type.
pub struct AlignTo<const N: usize>;

/// An alignment that an in-place storage can have: a power of two, up to
/// two to the power of twenty-nine.
pub trait ValidAlign {
    /// A type of no size with this alignment.
    type Marker: Default + core::fmt::Debug;
}

/// Holds an `elain::Align<1>`: nothing but an alignment of 1. Nothing
/// is claimed of it.
#[verifier::external_body]
#[derive(Default, Debug)]
pub struct Aligned1 {
    marker: elain::Align<1>,
}

impl ValidAlign for AlignTo<1> {
    type Marker = Aligned1;
}

/// Holds an `elain::Align<2>`: nothing but an alignment of 2. Nothing
/// is claimed of it.
#[verifier::external_body]
#[derive(Default, Debug)]
pub struct Aligned2 {
    marker: elain::Align<2>,
}

impl ValidAlign for AlignTo<2> {
    type Marker = Aligned2;
}

/// Holds an `elain::Align<4>`: nothing but an alignment of 4. Nothing
/// is claimed of it.
#[verifier::external_body]
#[derive(Default, Debug)]
pub struct Aligned4 {
    marker: elain::Align<4>,
}

impl ValidAlign for AlignTo<4> {
    type Marker = Aligned4;
}

/// Holds an `elain::Align<8>`: nothing but an alignment of 8. Nothing
/// is claimed of it.
#[verifier::external_body]
#[derive(Default, Debug)]
pub struct Aligned8 {
    marker: elain::Align<8>,
}

impl ValidAlign for AlignTo<8> {
    type Marker = Aligned8;
}

/// Holds an `elain::Align<16>`: nothing but an alignment of 16. Nothing
/// is claimed of it.
#[verifier::external_body]
#[derive(Default, Debug)]
pub struct Aligned16 {
    marker: elain::Align<16>,
}

impl ValidAlign for AlignTo<16> {
    type Marker = Aligned16;
}

/// Holds an `elain::Align<32>`: nothing but an alignment of 32. Nothing
/// is claimed of it.
#[verifier::external_body]
#[derive(Default, Debug)]
pub struct Aligned32 {
    marker: elain::Align<32>,
}

impl ValidAlign for AlignTo<32> {
    type Marker = Aligned32;
}

/// Holds an `elain::Align<64>`: nothing but an alignment of 64. Nothing
/// is claimed of it.
#[verifier::external_body]
#[derive(Default, Debug)]
pub struct Aligned64 {
    marker: elain::Align<64>,
}

impl ValidAlign for AlignTo<64> {
    type Marker = Aligned64;
}

/// Holds an `elain::Align<128>`: nothing but an alignment of 128. Nothing
/// is claimed of it.
#[verifier::external_body]
#[derive(Default, Debug)]
pub struct Aligned128 {
    marker: elain::Align<128>,
}

impl ValidAlign for AlignTo<128> {
    type Marker = Aligned128;
}

/// Holds an `elain::Align<256>`: nothing but an alignment of 256. Nothing
/// is claimed of it.
#[verifier::external_body]
#[derive(Default, Debug)]
pub struct Aligned256 {
    marker: elain::Align<256>,
}

impl ValidAlign for AlignTo<256> {
    type Marker = Aligned256;
}

/// Holds an `elain::Align<512>`: nothing but an alignment of 512. Nothing
/// is claimed of it.
#[verifier::external_body]
#[derive(Default, Debug)]
pub struct Aligned512 {
    marker: elain::Align<512>,
}

impl ValidAlign for AlignTo<512> {
    type Marker = Aligned512;
}

/// Holds an `elain::Align<1024>`: nothing but an alignment of 1024. Nothing
/// is claimed of it.
#[verifier::external_body]
#[derive(Default, Debug)]
pub struct Aligned1024 {
    marker: elain::Align<1024>,
}

impl ValidAlign for AlignTo<1024> {
    type Marker = Aligned1024;
}

/// Holds an `elain::Align<2048>`: nothing but an alignment of 2048. Nothing
/// is claimed of it.
#[verifier::external_body]
#[derive(Default, Debug)]
pub struct Aligned2048 {
    marker: elain::Align<2048>,
}

impl ValidAlign for AlignTo<2048> {
    type Marker = Aligned2048;
}

/// Holds an `elain::Align<4096>`: nothing but an alignment of 4096. Nothing
/// is claimed of it.
#[verifier::external_body]
#[derive(Default, Debug)]
pub struct Aligned4096 {
    marker: elain::Align<4096>,
}

impl ValidAlign for AlignTo<4096> {
    type Marker = Aligned4096;
}

/// Holds an `elain::Align<8192>`: nothing but an alignment of 8192. Nothing
/// is claimed of it.
#[verifier::external_body]
#[derive(Default, Debug)]
pub struct Aligned8192 {
    marker: elain::Align<8192>,
}

impl ValidAlign for AlignTo<8192> {
    type Marker = Aligned8192;
}

/// Holds an `elain::Align<16384>`: nothing but an alignment of 16384. Nothing
/// is claimed of it.
#[verifier::external_body]
#[derive(Default, Debug)]
pub struct Aligned16384 {
    marker: elain::Align<16384>,
}

impl ValidAlign for AlignTo<16384> {
    type Marker = Aligned16384;
}

/// Holds an `elain::Align<32768>`: nothing but an alignment of 32768. Nothing
/// is claimed of it.
#[verifier::external_body]
#[derive(Default, Debug)]
pub struct Aligned32768 {
    marker: elain::Align<32768>,
}

impl ValidAlign for AlignTo<32768> {
    type Marker = Aligned32768;
}

/// Holds an `elain::Align<65536>`: nothing but an alignment of 65536. Nothing
/// is claimed of it.
#[verifier::external_body]
#[derive(Default, Debug)]
pub struct Aligned65536 {
    marker: elain::Align<65536>,
}

impl ValidAlign for AlignTo<65536> {
    type Marker = Aligned65536;
}

/// Holds an `elain::Align<131072>`: nothing but an alignment of 131072. Nothing
/// is claimed of it.
#[verifier::external_body]
#[derive(Default, Debug)]
pub struct Aligned131072 {
    marker: elain::Align<131072>,
}

impl ValidAlign for AlignTo<131072> {
    type Marker = Aligned131072;
}

/// Holds an `elain::Align<262144>`: nothing but an alignment of 262144. Nothing
/// is claimed of it.
#[verifier::external_body]
#[derive(Default, Debug)]
pub struct Aligned262144 {
    marker: elain::Align<262144>,
}

impl ValidAlign for AlignTo<262144> {
    type Marker = Aligned262144;
}

/// Holds an `elain::Align<524288>`: nothing but an alignment of 524288. Nothing
/// is claimed of it.
#[verifier::external_body]
#[derive(Default, Debug)]
pub struct Aligned524288 {
    marker: elain::Align<524288>,
}

impl ValidAlign for AlignTo<524288> {
    type Marker = Aligned524288;
}

/// Holds an `elain::Align<1048576>`: nothing but an alignment of 1048576. Nothing
/// is claimed of it.
#[verifier::external_body]
#[derive(Default, Debug)]
pub struct Aligned1048576 {
    marker: elain::Align<1048576>,
}

impl ValidAlign for AlignTo<1048576> {
    type Marker = Aligned1048576;
}

/// Holds an `elain::Align<2097152>`: nothing but an alignment of 2097152. Nothing
/// is claimed of it.
#[verifier::external_body]
#[derive(Default, Debug)]
pub struct Aligned2097152 {
    marker: elain::Align<2097152>,
}

impl ValidAlign for AlignTo<2097152> {
    type Marker = Aligned2097152;
}

/// Holds an `elain::Align<4194304>`: nothing but an alignment of 4194304. Nothing
/// is claimed of it.
#[verifier::external_body]
#[derive(Default, Debug)]
pub struct Aligned4194304 {
    marker: elain::Align<4194304>,
}

impl ValidAlign for AlignTo<4194304> {
    type Marker = Aligned4194304;
}

/// Holds an `elain::Align<8388608>`: nothing but an alignment of 8388608. Nothing
/// is claimed of it.
#[verifier::external_body]
#[derive(Default, Debug)]
pub struct Aligned8388608 {
    marker: elain::Align<8388608>,
}

impl ValidAlign for AlignTo<8388608> {
    type Marker = Aligned8388608;
}

/// Holds an `elain::Align<16777216>`: nothing but an alignment of 16777216. Nothing
/// is claimed of it.
#[verifier::external_body]
#[derive(Default, Debug)]
pub struct Aligned16777216 {
    marker: elain::Align<16777216>,
}

impl ValidAlign for AlignTo<16777216> {
    type Marker = Aligned16777216;
}

/// Holds an `elain::Align<33554432>`: nothing but an alignment of 33554432. Nothing
/// is claimed of it.
#[verifier::external_body]
#[derive(Default, Debug)]
pub struct Aligned33554432 {
    marker: elain::Align<33554432>,
}

impl ValidAlign for AlignTo<33554432> {
    type Marker = Aligned33554432;
}

/// Holds an `elain::Align<67108864>`: nothing but an alignment of 67108864. Nothing
/// is claimed of it.
#[verifier::external_body]
#[derive(Default, Debug)]
pub struct Aligned67108864 {
    marker: elain::Align<67108864>,
}

impl ValidAlign for AlignTo<67108864> {
    type Marker = Aligned67108864;
}

/// Holds an `elain::Align<134217728>`: nothing but an alignment of 134217728. Nothing
/// is claimed of it.
#[verifier::external_body]
#[derive(Default, Debug)]
pub struct Aligned134217728 {
    marker: elain::Align<134217728>,
}

impl ValidAlign for AlignTo<134217728> {
    type Marker = Aligned134217728;
}

/// Holds an `elain::Align<268435456>`: nothing but an alignment of 268435456. Nothing
/// is claimed of it.
#[verifier::external_body]
#[derive(Default, Debug)]
pub struct Aligned268435456 {
    marker: elain::Align<268435456>,
}

impl ValidAlign for AlignTo<268435456> {
    type Marker = Aligned268435456;
}

/// Holds an `elain::Align<536870912>`: nothing but an alignment of 536870912. Nothing
/// is claimed of it.
#[verifier::external_body]
#[derive(Default, Debug)]
pub struct Aligned536870912 {
    marker: elain::Align<536870912>,
}

impl ValidAlign for AlignTo<536870912> {
    type Marker = Aligned536870912;
}

/// A payload next to a marker of no size, which aligns it.
#[derive(Debug)]
pub struct Padded<T, M> {
    pub value: T,
    pub marker: M,
}

} // verus!
