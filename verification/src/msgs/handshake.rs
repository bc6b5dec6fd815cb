use vstd::prelude::*;

verus! {

/// A hello random: 32 bytes chosen by one side.
#[derive(Clone, Copy, Debug, PartialEq, Eq)]
pub struct Random(pub [u8; 32]);

/// The PRF label `"master secret"`.
pub open spec fn master_secret_label() -> Seq<u8> {
    seq![0x6du8, 0x61u8, 0x73u8, 0x74u8, 0x65u8, 0x72u8, 0x20u8, 0x73u8, 0x65u8, 0x63u8, 0x72u8, 0x65u8, 0x74u8]
}

/// The PRF label `"master secret"`.
pub fn label_master_secret() -> (r: &'static [u8])
    ensures
        r@ == master_secret_label(),
{
    let r: &'static [u8] = &[0x6du8, 0x61u8, 0x73u8, 0x74u8, 0x65u8, 0x72u8, 0x20u8, 0x73u8, 0x65u8, 0x63u8, 0x72u8, 0x65u8, 0x74u8];
    assert(r@ =~= master_secret_label());
    r
}

/// The PRF label `"extended master secret"`.
pub open spec fn extended_master_secret_label() -> Seq<u8> {
    seq![0x65u8, 0x78u8, 0x74u8, 0x65u8, 0x6eu8, 0x64u8, 0x65u8, 0x64u8, 0x20u8, 0x6du8, 0x61u8, 0x73u8, 0x74u8, 0x65u8, 0x72u8, 0x20u8, 0x73u8, 0x65u8, 0x63u8, 0x72u8, 0x65u8, 0x74u8]
}

/// The PRF label `"extended master secret"`.
pub fn label_extended_master_secret() -> (r: &'static [u8])
    ensures
        r@ == extended_master_secret_label(),
{
    let r: &'static [u8] = &[0x65u8, 0x78u8, 0x74u8, 0x65u8, 0x6eu8, 0x64u8, 0x65u8, 0x64u8, 0x20u8, 0x6du8, 0x61u8, 0x73u8, 0x74u8, 0x65u8, 0x72u8, 0x20u8, 0x73u8, 0x65u8, 0x63u8, 0x72u8, 0x65u8, 0x74u8];
    assert(r@ =~= extended_master_secret_label());
    r
}

/// The PRF label `"key expansion"`.
pub open spec fn key_expansion_label() -> Seq<u8> {
    seq![0x6bu8, 0x65u8, 0x79u8, 0x20u8, 0x65u8, 0x78u8, 0x70u8, 0x61u8, 0x6eu8, 0x73u8, 0x69u8, 0x6fu8, 0x6eu8]
}

/// The PRF label `"key expansion"`.
pub fn label_key_expansion() -> (r: &'static [u8])
    ensures
        r@ == key_expansion_label(),
{
    let r: &'static [u8] = &[0x6bu8, 0x65u8, 0x79u8, 0x20u8, 0x65u8, 0x78u8, 0x70u8, 0x61u8, 0x6eu8, 0x73u8, 0x69u8, 0x6fu8, 0x6eu8];
    assert(r@ =~= key_expansion_label());
    r
}

/// The PRF label `"client finished"`.
pub open spec fn client_finished_label() -> Seq<u8> {
    seq![0x63u8, 0x6cu8, 0x69u8, 0x65u8, 0x6eu8, 0x74u8, 0x20u8, 0x66u8, 0x69u8, 0x6eu8, 0x69u8, 0x73u8, 0x68u8, 0x65u8, 0x64u8]
}

/// The PRF label `"client finished"`.
pub fn label_client_finished() -> (r: &'static [u8])
    ensures
        r@ == client_finished_label(),
{
    let r: &'static [u8] = &[0x63u8, 0x6cu8, 0x69u8, 0x65u8, 0x6eu8, 0x74u8, 0x20u8, 0x66u8, 0x69u8, 0x6eu8, 0x69u8, 0x73u8, 0x68u8, 0x65u8, 0x64u8];
    assert(r@ =~= client_finished_label());
    r
}

/// The PRF label `"server finished"`.
pub open spec fn server_finished_label() -> Seq<u8> {
    seq![0x73u8, 0x65u8, 0x72u8, 0x76u8, 0x65u8, 0x72u8, 0x20u8, 0x66u8, 0x69u8, 0x6eu8, 0x69u8, 0x73u8, 0x68u8, 0x65u8, 0x64u8]
}

/// The PRF label `"server finished"`.
pub fn label_server_finished() -> (r: &'static [u8])
    ensures
        r@ == server_finished_label(),
{
    let r: &'static [u8] = &[0x73u8, 0x65u8, 0x72u8, 0x76u8, 0x65u8, 0x72u8, 0x20u8, 0x66u8, 0x69u8, 0x6eu8, 0x69u8, 0x73u8, 0x68u8, 0x65u8, 0x64u8];
    assert(r@ =~= server_finished_label());
    r
}

} // verus!
