//! The text of an alert: each tracked field's label and its value, written
//! the way a person reads it.

use vstd::prelude::*;
use vstd::string::StringExecFns;

use crate::damage::CarDamage;

verus! {

/// The decimal digit `d`.
pub open spec fn digit(d: nat) -> char {
    seq!['0', '1', '2', '3', '4', '5', '6', '7', '8', '9'][d as int]
}

/// `n` in decimal, without leading zeros.
pub open spec fn decimal(n: nat) -> Seq<char>
    decreases n,
{
    if n < 10 {
        seq![digit(n)]
    } else {
        decimal(n / 10).push(digit(n % 10))
    }
}

/// Four per-wheel values as a bracketed list: `[1, 2, 3, 4]`.
pub open spec fn wheels_text(w: Seq<u8>) -> Seq<char> {
    seq!['['] + decimal(w[0] as nat) + seq![',', ' '] + decimal(w[1] as nat) + seq![',', ' ']
        + decimal(w[2] as nat) + seq![',', ' '] + decimal(w[3] as nat) + seq![']']
}

/// One line of an alert.
#[derive(Clone, Debug, PartialEq, Eq)]
pub struct AlertField {
    pub name: String,
    pub value: String,
}

/// The labels of the tracked fields, in the order an alert lists them.
pub open spec fn field_names() -> Seq<Seq<char>> {
    seq![
        "Tyre Damage"@,
        "Brake Damage"@,
        "Front Left Wing Damage"@,
        "Front Right Wing Damage"@,
        "Rear Wing Damage"@,
        "Floor Damage"@,
        "Diffuser Damage"@,
        "Sidepod Damage"@,
        "Gearbox Damage"@,
        "Engine Damage"@,
    ]
}

/// The values of the tracked fields of `d`, in the order of `field_names`.
pub open spec fn field_values(d: CarDamage) -> Seq<Seq<char>> {
    seq![
        wheels_text(d.tyre_damage@),
        wheels_text(d.brake_damage@),
        decimal(d.front_left_wing_damage as nat),
        decimal(d.front_right_wing_damage as nat),
        decimal(d.rear_wing_damage as nat),
        decimal(d.floor_wing_damage as nat),
        decimal(d.diffuser_damage as nat),
        decimal(d.sidepod_damage as nat),
        decimal(d.gearbox_damage as nat),
        decimal(d.engine_damage as nat),
    ]
}

fn push_digit(s: &mut String, d: u8)
    requires
        d < 10,
    ensures
        final(s)@ == old(s)@.push(digit(d as nat)),
{
    proof {
        reveal_strlit("0");
        reveal_strlit("1");
        reveal_strlit("2");
        reveal_strlit("3");
        reveal_strlit("4");
        reveal_strlit("5");
        reveal_strlit("6");
        reveal_strlit("7");
        reveal_strlit("8");
        reveal_strlit("9");
    }
    let t = match d {
        0 => "0",
        1 => "1",
        2 => "2",
        3 => "3",
        4 => "4",
        5 => "5",
        6 => "6",
        7 => "7",
        8 => "8",
        _ => "9",
    };
    s.append(t);
    assert(final(s)@ =~= old(s)@.push(digit(d as nat)));
}

/// Appends `n` in decimal to `s`.
pub fn push_decimal(s: &mut String, n: u8)
    ensures
        final(s)@ == old(s)@ + decimal(n as nat),
{
    let ghost start = s@;
    proof {
        reveal_with_fuel(decimal, 3);
    }
    if n >= 100 {
        push_digit(s, n / 100);
        push_digit(s, (n / 10) % 10);
        assert(decimal((n / 10) as nat) == seq![digit((n / 100) as nat)].push(
            digit(((n / 10) % 10) as nat),
        ));
    } else if n >= 10 {
        push_digit(s, n / 10);
    }
    push_digit(s, n % 10);
    assert(s@ =~= start + decimal(n as nat));
}

/// `n` in decimal.
pub fn decimal_text(n: u8) -> (r: String)
    ensures
        r@ == decimal(n as nat),
{
    let mut s = String::new();
    push_decimal(&mut s, n);
    assert(s@ =~= decimal(n as nat));
    s
}

/// Four per-wheel values as a bracketed, comma separated list.
pub fn wheels_list(w: &[u8; 4]) -> (r: String)
    ensures
        r@ == wheels_text(w@),
{
    proof {
        reveal_strlit("[");
        reveal_strlit(", ");
        reveal_strlit("]");
    }
    let mut s = String::from_str("[");
    push_decimal(&mut s, w[0]);
    s.append(", ");
    push_decimal(&mut s, w[1]);
    s.append(", ");
    push_decimal(&mut s, w[2]);
    s.append(", ");
    push_decimal(&mut s, w[3]);
    s.append("]");
    assert(s@ =~= wheels_text(w@));
    s
}

fn field(name: &str, value: String) -> (r: AlertField)
    ensures
        r.name@ == name@,
        r.value == value,
{
    AlertField { name: String::from_str(name), value }
}

/// The lines of the alert for `d`: every tracked field, labelled, in a fixed
/// order.
pub fn alert_fields(d: &CarDamage) -> (r: Vec<AlertField>)
    ensures
        r@.len() == 10,
        forall|i: int|
            0 <= i < 10 ==> r@[i].name@ == field_names()[i] && r@[i].value@ == field_values(
                *d,
            )[i],
{
    let mut r: Vec<AlertField> = Vec::new();
    r.push(field("Tyre Damage", wheels_list(&d.tyre_damage)));
    r.push(field("Brake Damage", wheels_list(&d.brake_damage)));
    r.push(field("Front Left Wing Damage", decimal_text(d.front_left_wing_damage)));
    r.push(field("Front Right Wing Damage", decimal_text(d.front_right_wing_damage)));
    r.push(field("Rear Wing Damage", decimal_text(d.rear_wing_damage)));
    r.push(field("Floor Damage", decimal_text(d.floor_wing_damage)));
    r.push(field("Diffuser Damage", decimal_text(d.diffuser_damage)));
    r.push(field("Sidepod Damage", decimal_text(d.sidepod_damage)));
    r.push(field("Gearbox Damage", decimal_text(d.gearbox_damage)));
    r.push(field("Engine Damage", decimal_text(d.engine_damage)));
    r
}

} // verus!
