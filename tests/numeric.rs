use quadcore::datalog::{datalog, full_check, next_read, LOG_END};
use quadcore::filters::{ButterWorth, Kalman};
use quadcore::fx::Fx;
use quadcore::mixer::calc_motors;
use quadcore::pid::PID;
use quadcore::ypr::{angle_of, unwrap_offset, Quaternion, YawPitchRoll, TWO_PI_BITS};

#[test]
fn fixed_point_arithmetic() {
    let a = Fx::from_bits(1536); // 1.5
    let b = Fx::from_bits(-2560); // -2.5
    assert_eq!(a.mul(b).bits, -3840);
    assert_eq!(Fx::from_bits(-1).mul(Fx::from_bits(1)).bits, -1); // rounded down
    assert_eq!(a.div(b).bits, -614); // -0.6 rounded towards zero
    assert_eq!(Fx::from_int(3).to_int(), 3);
    assert_eq!(Fx::from_bits(-1).to_int(), -1);
    assert_eq!(Fx::from_bits(i32::MAX).add(Fx::from_bits(1)).bits, i32::MAX);
    assert_eq!(Fx::from_bits(i32::MIN).neg().bits, i32::MAX);
    assert_eq!(Fx::from_int(5_000_000).bits, i32::MAX);
}

#[test]
fn arctangent_quadrants() {
    assert_eq!(angle_of(Fx::zero(), Fx::from_int(1)).bits, 0);
    assert_eq!(angle_of(Fx::from_int(1), Fx::zero()).bits, 1608);
    assert_eq!(angle_of(Fx::from_int(-1), Fx::zero()).bits, -1608);
    let q1 = angle_of(Fx::from_int(1), Fx::from_int(1)).bits;
    assert!((q1 - 804).abs() <= 4);
    // far too steep for the fixed-point quotient: taken as vertical
    assert_eq!(angle_of(Fx::from_bits(i32::MAX), Fx::from_bits(1)).bits, 1608);
}

#[test]
fn quaternion_identity_is_level() {
    let one = Fx::from_int(1);
    let q = Quaternion { w: one, x: Fx::zero(), y: Fx::zero(), z: Fx::zero() };
    let e = YawPitchRoll::from_quaternion(q);
    assert_eq!((e.yaw.bits, e.pitch.bits, e.roll.bits), (0, 0, 0));
    // a quarter turn about z: yaw of magnitude pi/2, level otherwise
    let h = Fx::from_bits(724); // sqrt(1/2)
    let t = YawPitchRoll::from(Quaternion { w: h, x: Fx::zero(), y: Fx::zero(), z: h });
    assert!((t.yaw.bits.abs() - 1608).abs() <= 8);
    assert_eq!((t.pitch.bits, t.roll.bits), (0, 0));
}

#[test]
fn unwrap_adds_one_turn_per_crossing() {
    let off = unwrap_offset(Fx::from_bits(3100), Fx::zero(), Fx::from_bits(-3100));
    assert_eq!(off.bits, TWO_PI_BITS);
    let back = unwrap_offset(Fx::from_bits(-3100), Fx::from_bits(TWO_PI_BITS), Fx::from_bits(3100));
    assert_eq!(back.bits, 0);
    let up = unwrap_offset(Fx::from_bits(-3100), Fx::zero(), Fx::from_bits(3100));
    assert_eq!(up.bits, -TWO_PI_BITS);
}

#[test]
fn unwrap_no_drift_without_crossing() {
    let mut prev = Fx::zero();
    let mut off = Fx::zero();
    for s in [0, 500, 2000, 2600, 3000, 2000, -1000, -2600, -3000, -2000] {
        off = unwrap_offset(prev, off, Fx::from_bits(s));
        prev = Fx::from_bits(s);
        assert_eq!(off.bits, 0);
    }
}

#[test]
fn unwrap_continuous_through_full_turn() {
    let mut prev = Fx::zero();
    let mut off = Fx::zero();
    let mut continuous = Fx::zero();
    for s in [2000, 3000, -3000, -2000, 0, 2000, 3000, -3000] {
        off = unwrap_offset(prev, off, Fx::from_bits(s));
        prev = Fx::from_bits(s);
        continuous = prev.add(off);
    }
    assert_eq!(off.bits, 2 * TWO_PI_BITS);
    assert_eq!(continuous.bits, -3000 + 2 * TWO_PI_BITS);
}

#[test]
fn mixer_dead_zone_stops_motors() {
    let ypr = YawPitchRoll { yaw: Fx::from_int(1), pitch: Fx::from_int(2), roll: Fx::from_int(-1) };
    assert_eq!(calc_motors(ypr, Fx::from_int(-40)), [0, 0, 0, 0]);
    assert_eq!(calc_motors(ypr, Fx::from_int(0)), [0, 0, 0, 0]);
}

#[test]
fn mixer_engaged_floor() {
    let ypr = YawPitchRoll { yaw: Fx::from_int(2), pitch: Fx::from_int(1), roll: Fx::zero() };
    let m = calc_motors(ypr, Fx::from_int(-51));
    assert!(m.iter().all(|&v| v >= 180));
    // exactly at the threshold the floor does not apply
    let m = calc_motors(YawPitchRoll::new(), Fx::from_int(-50));
    assert_eq!(m, [111, 111, 111, 111]);
}

#[test]
fn mixer_exact_value() {
    // lift 100, squared demand 100000: sqrt is 316.2
    assert_eq!(calc_motors(YawPitchRoll::new(), Fx::from_int(-400)), [316, 316, 316, 316]);
    let ypr = YawPitchRoll { yaw: Fx::zero(), pitch: Fx::from_int(-1), roll: Fx::zero() };
    let m = calc_motors(ypr, Fx::from_int(-400));
    assert_eq!((m[0], m[2]), (317, 315));
    assert_eq!(m[1], m[3]);
}

#[test]
fn pid_law_and_fallback() {
    let mut pid = PID::new();
    let (out, err) = pid.clac_pid(Fx::zero(), Fx::from_bits(205), Fx::zero(), Fx::from_int(1), Fx::from_int(1), Fx::from_int(1));
    assert_eq!(err.bits, 205);
    assert_eq!(out.bits, 1500 * 205);
    pid.p = Fx::from_int(2);
    pid.d = Fx::from_int(1);
    let (out, err) = pid.clac_pid(Fx::from_int(1), Fx::from_int(3), Fx::from_int(1), Fx::from_int(2), Fx::from_int(1), Fx::from_int(1));
    assert_eq!(err.bits, 2048);
    assert_eq!(out.bits, 4 * 1024 + 512);
}

#[test]
fn butterworth_coefficients_and_step() {
    let mut f = ButterWorth::new();
    assert_eq!((f.b0.bits, f.b1.bits, f.a1.bits), (51, 51, 922));
    assert_eq!(f.filter(Fx::from_int(1)).bits, 51);
    assert_eq!(f.filter(Fx::from_int(1)).bits, 51 + 51 + 45);
}

#[test]
fn kalman_level_and_still() {
    let mut k = Kalman::new();
    k.filtering(Fx::zero(), Fx::zero(), Fx::from_int(1000), Fx::zero(), Fx::zero());
    assert_eq!((k.pitchphi.bits, k.rollphi.bits, k.pitchb.bits, k.rollb.bits), (0, 0, 0, 0));
    k.filtering(Fx::zero(), Fx::zero(), Fx::from_int(1000), Fx::from_int(100), Fx::zero());
    assert_eq!(k.rollp.bits, 100 * 17);
}

#[test]
fn datalog_cursor_and_erase() {
    assert_eq!(full_check(0, 64), (0, 64, false));
    assert_eq!(full_check(LOG_END - 64, 64), (LOG_END - 64, LOG_END, false));
    assert_eq!(full_check(LOG_END, 64), (0, 64, true));
    let w = datalog(vec![1, 2], LOG_END);
    assert!(w.erase_first);
    assert_eq!((w.address, w.next), (0, 64));
    assert_eq!(w.frame.len(), 64);
}

#[test]
fn datalog_wraps_once_after_full_region() {
    let mut pc = 0u32;
    let mut erases = 0;
    let slots = LOG_END / 64;
    for k in 0..(slots + 10) {
        let (addr, next, erase) = full_check(pc, 64);
        if erase {
            erases += 1;
            assert_eq!(k, slots);
            assert_eq!(addr, 0);
        }
        pc = next;
    }
    assert_eq!(erases, 1);
    assert_eq!(pc, 64 * 10);
}

#[test]
fn replay_cursor_wraps_without_reading() {
    assert_eq!(next_read(0), (true, 64));
    assert_eq!(next_read(LOG_END - 128), (true, LOG_END - 64));
    assert_eq!(next_read(LOG_END - 64), (true, 0));
    assert_eq!(next_read(LOG_END), (false, 0));
}
