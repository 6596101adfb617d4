use vstd::prelude::*;

verus! {

/// A protocol version number, advertised in the handshake.
pub type ProtocolNum = u16;

/// The port that servers listen on unless told otherwise; asking for it
/// makes the resolver try a service record first.
pub const DEFAULT_PORT: u16 = 25565;

pub const MINECRAFT_1_7: ProtocolNum = 3;
pub const MINECRAFT_1_7_1: ProtocolNum = 3;
pub const MINECRAFT_1_7_2: ProtocolNum = 4;
pub const MINECRAFT_1_7_3: ProtocolNum = 4;
pub const MINECRAFT_1_7_4: ProtocolNum = 4;
pub const MINECRAFT_1_7_5: ProtocolNum = 4;
pub const MINECRAFT_1_7_6: ProtocolNum = 5;
pub const MINECRAFT_1_7_7: ProtocolNum = 5;
pub const MINECRAFT_1_7_8: ProtocolNum = 5;
pub const MINECRAFT_1_7_9: ProtocolNum = 5;
pub const MINECRAFT_1_7_10: ProtocolNum = 5;

pub const MINECRAFT_1_8: ProtocolNum = 47;
pub const MINECRAFT_1_8_1: ProtocolNum = 47;
pub const MINECRAFT_1_8_2: ProtocolNum = 47;
pub const MINECRAFT_1_8_3: ProtocolNum = 47;
pub const MINECRAFT_1_8_4: ProtocolNum = 47;
pub const MINECRAFT_1_8_5: ProtocolNum = 47;
pub const MINECRAFT_1_8_6: ProtocolNum = 47;
pub const MINECRAFT_1_8_7: ProtocolNum = 47;
pub const MINECRAFT_1_8_8: ProtocolNum = 47;
pub const MINECRAFT_1_8_9: ProtocolNum = 47;

pub const MINECRAFT_1_9: ProtocolNum = 107;
pub const MINECRAFT_1_9_1: ProtocolNum = 108;
pub const MINECRAFT_1_9_2: ProtocolNum = 109;
pub const MINECRAFT_1_9_3: ProtocolNum = 110;
pub const MINECRAFT_1_9_4: ProtocolNum = 110;

pub const MINECRAFT_1_10: ProtocolNum = 210;
pub const MINECRAFT_1_10_1: ProtocolNum = 210;
pub const MINECRAFT_1_10_2: ProtocolNum = 210;

pub const MINECRAFT_1_11: ProtocolNum = 315;
pub const MINECRAFT_1_11_1: ProtocolNum = 316;
pub const MINECRAFT_1_11_2: ProtocolNum = 316;

pub const MINECRAFT_1_12: ProtocolNum = 335;
pub const MINECRAFT_1_12_1: ProtocolNum = 338;
pub const MINECRAFT_1_12_2: ProtocolNum = 340;

pub const MINECRAFT_1_13: ProtocolNum = 393;
pub const MINECRAFT_1_13_1: ProtocolNum = 401;
pub const MINECRAFT_1_13_2: ProtocolNum = 404;

pub const MINECRAFT_1_14: ProtocolNum = 477;
pub const MINECRAFT_1_14_1: ProtocolNum = 480;
pub const MINECRAFT_1_14_2: ProtocolNum = 485;
pub const MINECRAFT_1_14_3: ProtocolNum = 490;
pub const MINECRAFT_1_14_4: ProtocolNum = 498;

pub const MINECRAFT_1_15: ProtocolNum = 573;
pub const MINECRAFT_1_15_1: ProtocolNum = 575;
pub const MINECRAFT_1_15_2: ProtocolNum = 578;

pub const MINECRAFT_1_16: ProtocolNum = 735;
pub const MINECRAFT_1_16_1: ProtocolNum = 736;
pub const MINECRAFT_1_16_2: ProtocolNum = 751;
pub const MINECRAFT_1_16_3: ProtocolNum = 753;
pub const MINECRAFT_1_16_4: ProtocolNum = 754;
pub const MINECRAFT_1_16_5: ProtocolNum = 754;

pub const MINECRAFT_1_17: ProtocolNum = 755;
pub const MINECRAFT_1_17_1: ProtocolNum = 756;

pub const MINECRAFT_1_18: ProtocolNum = 757;
pub const MINECRAFT_1_18_1: ProtocolNum = 757;
pub const MINECRAFT_1_18_2: ProtocolNum = 758;

pub const MINECRAFT_1_19: ProtocolNum = 759;
pub const MINECRAFT_1_19_1: ProtocolNum = 760;
pub const MINECRAFT_1_19_2: ProtocolNum = 760;
pub const MINECRAFT_1_19_3: ProtocolNum = 761;
pub const MINECRAFT_1_19_4: ProtocolNum = 762;

pub const MINECRAFT_1_20: ProtocolNum = 763;
pub const MINECRAFT_1_20_1: ProtocolNum = 763;
pub const MINECRAFT_1_20_2: ProtocolNum = 764;
pub const MINECRAFT_1_20_3: ProtocolNum = 765;
pub const MINECRAFT_1_20_4: ProtocolNum = 765;
pub const MINECRAFT_1_20_5: ProtocolNum = 766;
pub const MINECRAFT_1_20_6: ProtocolNum = 766;

pub const MINECRAFT_1_21: ProtocolNum = 767;
pub const MINECRAFT_1_21_1: ProtocolNum = 767;
pub const MINECRAFT_1_21_2: ProtocolNum = 768;
pub const MINECRAFT_1_21_3: ProtocolNum = 768;
pub const MINECRAFT_1_21_4: ProtocolNum = 769;
pub const MINECRAFT_1_21_5: ProtocolNum = 770;
pub const MINECRAFT_1_21_6: ProtocolNum = 771;
pub const MINECRAFT_1_21_7: ProtocolNum = 772;

/// The newest protocol version this library knows.
pub const LATEST: ProtocolNum = MINECRAFT_1_21_7;

#[verifier::external_type_specification]
#[verifier::external_body]
#[verifier::reject_recursive_types(A)]
#[verifier::reject_recursive_types(S)]
pub struct ExImHashSet<A, S>(im::hashset::HashSet<A, S>);

/// The protocol numbers that a set of them holds.
pub uninterp spec fn protocol_set_contents(s: im::HashSet<u16>) -> Set<u16>;

/// The protocol versions that a ping may advertise.
pub open spec fn known_protocol_numbers() -> Set<ProtocolNum> {
    set![
        MINECRAFT_1_7_1,
        MINECRAFT_1_7_5,
        MINECRAFT_1_7_10,
        MINECRAFT_1_8_9,
        MINECRAFT_1_9,
        MINECRAFT_1_9_1,
        MINECRAFT_1_9_2,
        MINECRAFT_1_9_4,
        MINECRAFT_1_10_2,
        MINECRAFT_1_11,
        MINECRAFT_1_11_2,
        MINECRAFT_1_12,
        MINECRAFT_1_12_1,
        MINECRAFT_1_12_2,
        MINECRAFT_1_13,
        MINECRAFT_1_13_1,
        MINECRAFT_1_13_2,
        MINECRAFT_1_14,
        MINECRAFT_1_14_1,
        MINECRAFT_1_14_2,
        MINECRAFT_1_14_3,
        MINECRAFT_1_14_4,
        MINECRAFT_1_15,
        MINECRAFT_1_15_1,
        MINECRAFT_1_15_2,
        MINECRAFT_1_16,
        MINECRAFT_1_16_1,
        MINECRAFT_1_16_2,
        MINECRAFT_1_16_3,
        MINECRAFT_1_16_5,
        MINECRAFT_1_17,
        MINECRAFT_1_17_1,
        MINECRAFT_1_18_1,
        MINECRAFT_1_18_2,
        MINECRAFT_1_19,
        MINECRAFT_1_19_2,
        MINECRAFT_1_19_3,
        MINECRAFT_1_19_4,
        MINECRAFT_1_20_1,
        MINECRAFT_1_20_2,
        MINECRAFT_1_20_4,
        MINECRAFT_1_20_6,
        MINECRAFT_1_21_1,
        MINECRAFT_1_21_3,
        MINECRAFT_1_21_4,
        MINECRAFT_1_21_5,
        MINECRAFT_1_21_6,
        MINECRAFT_1_21_7,
    ]
}

/// Relies on `im::HashSet::new`: a new set holds nothing.
#[verifier::external_body]
fn new_protocol_set() -> (r: im::HashSet<u16>)
    ensures
        protocol_set_contents(r) == Set::<u16>::empty(),
{
    im::HashSet::new()
}

/// Relies on `im::HashSet::insert`: afterwards the set holds `n` and what it held.
#[verifier::external_body]
fn insert_protocol(set: &mut im::HashSet<u16>, n: u16)
    ensures
        protocol_set_contents(*final(set)) == protocol_set_contents(*old(set)).insert(n),
{
    set.insert(n);
}

/// Relies on `im::HashSet::contains`: true exactly when the set holds `n`.
#[verifier::external_body]
fn protocol_set_contains(set: &im::HashSet<u16>, n: u16) -> (r: bool)
    ensures
        r == protocol_set_contents(*set).contains(n),
{
    set.contains(&n)
}

/// Builds the set of known protocol versions.
pub fn get_known_protocol_numbers() -> (r: im::HashSet<ProtocolNum>)
    ensures
        protocol_set_contents(r) == known_protocol_numbers(),
{
    let mut set = new_protocol_set();
    insert_protocol(&mut set, MINECRAFT_1_7_1);
    insert_protocol(&mut set, MINECRAFT_1_7_5);
    insert_protocol(&mut set, MINECRAFT_1_7_10);
    insert_protocol(&mut set, MINECRAFT_1_8_9);
    insert_protocol(&mut set, MINECRAFT_1_9);
    insert_protocol(&mut set, MINECRAFT_1_9_1);
    insert_protocol(&mut set, MINECRAFT_1_9_2);
    insert_protocol(&mut set, MINECRAFT_1_9_4);
    insert_protocol(&mut set, MINECRAFT_1_10_2);
    insert_protocol(&mut set, MINECRAFT_1_11);
    insert_protocol(&mut set, MINECRAFT_1_11_2);
    insert_protocol(&mut set, MINECRAFT_1_12);
    insert_protocol(&mut set, MINECRAFT_1_12_1);
    insert_protocol(&mut set, MINECRAFT_1_12_2);
    insert_protocol(&mut set, MINECRAFT_1_13);
    insert_protocol(&mut set, MINECRAFT_1_13_1);
    insert_protocol(&mut set, MINECRAFT_1_13_2);
    insert_protocol(&mut set, MINECRAFT_1_14);
    insert_protocol(&mut set, MINECRAFT_1_14_1);
    insert_protocol(&mut set, MINECRAFT_1_14_2);
    insert_protocol(&mut set, MINECRAFT_1_14_3);
    insert_protocol(&mut set, MINECRAFT_1_14_4);
    insert_protocol(&mut set, MINECRAFT_1_15);
    insert_protocol(&mut set, MINECRAFT_1_15_1);
    insert_protocol(&mut set, MINECRAFT_1_15_2);
    insert_protocol(&mut set, MINECRAFT_1_16);
    insert_protocol(&mut set, MINECRAFT_1_16_1);
    insert_protocol(&mut set, MINECRAFT_1_16_2);
    insert_protocol(&mut set, MINECRAFT_1_16_3);
    insert_protocol(&mut set, MINECRAFT_1_16_5);
    insert_protocol(&mut set, MINECRAFT_1_17);
    insert_protocol(&mut set, MINECRAFT_1_17_1);
    insert_protocol(&mut set, MINECRAFT_1_18_1);
    insert_protocol(&mut set, MINECRAFT_1_18_2);
    insert_protocol(&mut set, MINECRAFT_1_19);
    insert_protocol(&mut set, MINECRAFT_1_19_2);
    insert_protocol(&mut set, MINECRAFT_1_19_3);
    insert_protocol(&mut set, MINECRAFT_1_19_4);
    insert_protocol(&mut set, MINECRAFT_1_20_1);
    insert_protocol(&mut set, MINECRAFT_1_20_2);
    insert_protocol(&mut set, MINECRAFT_1_20_4);
    insert_protocol(&mut set, MINECRAFT_1_20_6);
    insert_protocol(&mut set, MINECRAFT_1_21_1);
    insert_protocol(&mut set, MINECRAFT_1_21_3);
    insert_protocol(&mut set, MINECRAFT_1_21_4);
    insert_protocol(&mut set, MINECRAFT_1_21_5);
    insert_protocol(&mut set, MINECRAFT_1_21_6);
    insert_protocol(&mut set, MINECRAFT_1_21_7);
    set
}

/// Whether `n` is a protocol version that a ping may advertise.
pub fn is_known_protocol_number(n: &ProtocolNum) -> (r: bool)
    ensures
        r == known_protocol_numbers().contains(*n),
{
    let set = get_known_protocol_numbers();
    protocol_set_contains(&set, *n)
}

} // verus!
