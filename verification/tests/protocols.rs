use wvec::compare::{CmpOp, CmpOutcome, Operand};
use wvec::text::repr_string;
use wvec::vector::Vector2;

fn vec34() -> Vector2 {
    Vector2::new(3.0f64.to_bits(), 4.0f64.to_bits()).unwrap()
}

fn numbers(vals: &[f64]) -> Operand {
    Operand::Numbers(vals.iter().map(|v| v.to_bits()).collect())
}

#[test]
fn equality_against_matching_sequence() {
    let v = vec34();
    let r = v.richcmp(&numbers(&[3.0, 4.0]), CmpOp::Equal);
    assert_eq!(r, CmpOutcome::Decided(true));
    let r = v.richcmp(&numbers(&[3.0, 4.0]), CmpOp::NotEqual);
    assert_eq!(r, CmpOutcome::Decided(false));
}

#[test]
fn equality_against_longer_sequence_is_false() {
    let v = vec34();
    let r = v.richcmp(&numbers(&[3.0, 4.0, 5.0]), CmpOp::Equal);
    assert_eq!(r, CmpOutcome::Decided(false));
}

#[test]
fn equality_against_shorter_sequence_is_false() {
    let v = vec34();
    let r = v.richcmp(&numbers(&[3.0]), CmpOp::Equal);
    assert_eq!(r, CmpOutcome::Decided(false));
    let r = v.richcmp(&numbers(&[]), CmpOp::NotEqual);
    assert_eq!(r, CmpOutcome::Decided(true));
}

#[test]
fn equality_against_another_vector() {
    let v = vec34();
    let w = Vector2::new(3.0f64.to_bits(), 4.0f64.to_bits()).unwrap();
    assert_eq!(v.richcmp(&Operand::Vector(w), CmpOp::Equal), CmpOutcome::Decided(true));
    let u = Vector2::new(3.0f64.to_bits(), 5.0f64.to_bits()).unwrap();
    assert_eq!(v.richcmp(&Operand::Vector(u), CmpOp::Equal), CmpOutcome::Decided(false));
    assert_eq!(v.richcmp(&Operand::Vector(u), CmpOp::NotEqual), CmpOutcome::Decided(true));
}

#[test]
fn ordering_operators_are_unsupported() {
    let v = vec34();
    let w = Operand::Vector(vec34());
    assert_eq!(v.richcmp(&w, CmpOp::Less), CmpOutcome::NotImplemented);
    assert_eq!(v.richcmp(&w, CmpOp::LessOrEqual), CmpOutcome::NotImplemented);
    assert_eq!(v.richcmp(&w, CmpOp::Greater), CmpOutcome::NotImplemented);
    assert_eq!(v.richcmp(&w, CmpOp::GreaterOrEqual), CmpOutcome::NotImplemented);
}

#[test]
fn foreign_operands_are_unsupported() {
    let v = vec34();
    assert_eq!(v.richcmp(&Operand::Foreign, CmpOp::Equal), CmpOutcome::NotImplemented);
    assert_eq!(v.richcmp(&Operand::Foreign, CmpOp::NotEqual), CmpOutcome::NotImplemented);
}

#[test]
fn sequence_comparison_equates_zero_signs() {
    let z = Vector2::new(0.0f64.to_bits(), 0.0f64.to_bits()).unwrap();
    let r = z.richcmp(&numbers(&[-0.0, -0.0]), CmpOp::Equal);
    assert_eq!(r, CmpOutcome::Decided(true));
}

#[test]
fn iteration_yields_both_coordinates_then_stops() {
    let v = vec34();
    let mut it = v.iter();
    assert_eq!(it.next(), Some(3.0f64.to_bits()));
    assert_eq!(it.next(), Some(4.0f64.to_bits()));
    assert_eq!(it.next(), None);
    assert_eq!(it.next(), None);
}

#[test]
fn iteration_is_restartable_with_independent_cursors() {
    let v = vec34();
    let mut first = v.iter();
    assert_eq!(first.next(), Some(3.0f64.to_bits()));
    let mut second = v.iter();
    assert_eq!(second.next(), Some(3.0f64.to_bits()));
    assert_eq!(first.next(), Some(4.0f64.to_bits()));
    assert_eq!(second.next(), Some(4.0f64.to_bits()));
    assert_eq!(first.next(), None);
    assert_eq!(second.next(), None);
}

#[test]
fn cursor_iter_hands_the_cursor_on() {
    let v = vec34();
    let mut it = v.iter().iter();
    assert_eq!(it.next(), Some(3.0f64.to_bits()));
}

#[test]
fn repr_assembles_the_canonical_form() {
    let v = vec34();
    let x = format!("{}", f64::from_bits(v.x));
    let y = format!("{}", f64::from_bits(v.y));
    assert_eq!(repr_string(&x, &y), "Vector2(3, 4)");
    assert_eq!(repr_string("1.5", "-2"), "Vector2(1.5, -2)");
}
