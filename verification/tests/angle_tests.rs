use third_person_rig::angle::Angle;

#[test]
fn add_signed_wraps_both_ways() {
    let a = Angle::new(350_000);
    assert_eq!(a.add_signed(20_000).mdeg, 10_000);
    let b = Angle::new(10_000);
    assert_eq!(b.add_signed(-20_000).mdeg, 350_000);
    assert_eq!(b.add_signed(0).mdeg, 10_000);
    assert_eq!(b.add_signed(360_000).mdeg, 10_000);
    assert_eq!(b.add_signed(-360_000).mdeg, 10_000);
}

#[test]
fn signed_diff_takes_shorter_arc() {
    let a = Angle::new(350_000);
    let b = Angle::new(10_000);
    assert_eq!(a.signed_diff_to(b), 20_000);
    assert_eq!(b.signed_diff_to(a), -20_000);
    assert_eq!(a.signed_diff_to(a), 0);
    // a half turn counts as positive
    let c = Angle::new(0);
    let d = Angle::new(180_000);
    assert_eq!(c.signed_diff_to(d), 180_000);
    assert_eq!(d.signed_diff_to(c), 180_000);
}

#[test]
fn rotate_towards_steps_and_arrives() {
    let cur = Angle::new(0);
    let tgt = Angle::new(90_000);
    // an unsaturated step advances by exactly the budget
    assert_eq!(cur.rotate_towards(tgt, 30_000).mdeg, 30_000);
    // a saturated step arrives exactly, it never overshoots
    assert_eq!(cur.rotate_towards(tgt, 90_000).mdeg, 90_000);
    assert_eq!(cur.rotate_towards(tgt, 1_000_000).mdeg, 90_000);
    // the shorter arc can cross the wrap-around
    let near_full = Angle::new(350_000);
    let small = Angle::new(10_000);
    assert_eq!(near_full.rotate_towards(small, 5_000).mdeg, 355_000);
    assert_eq!(near_full.rotate_towards(small, 20_000).mdeg, 10_000);
    // at the target every step is a fixed point
    assert_eq!(tgt.rotate_towards(tgt, 4_774).mdeg, 90_000);
}

#[test]
fn repeated_small_steps_match_one_saturated_step() {
    // the turn budget of one tick at five radians per second and a
    // sixtieth of a second
    let step: u32 = 4_774;
    let tgt = Angle::new(90_000);
    let mut cur = Angle::new(0);
    let mut n: u32 = 0;
    while cur.mdeg != 90_000 {
        cur = cur.rotate_towards(tgt, step);
        n += 1;
        assert!(n <= 40, "bounded-step rotation failed to arrive");
    }
    // nineteen ticks cover the quarter turn: 18 * 4774 < 90000 <= 19 * 4774
    assert_eq!(n, 19);
    // one step with the whole budget ends at exactly the same facing
    let one_shot = Angle::new(0).rotate_towards(tgt, step * n);
    assert_eq!(one_shot.mdeg, cur.mdeg);
    // and further steps stay put
    assert_eq!(cur.rotate_towards(tgt, step).mdeg, 90_000);
}
