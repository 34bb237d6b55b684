use quadcore::codec::{serialize_message, serialize_message_log, Command, Mode};
use quadcore::parser::StreamParser;
use quadcore::drone::{Drone, MotorWrite, Outbox};
use quadcore::estimate::RawSample;
use quadcore::modes::{samples_for, send_configure_joystick_vals, send_motor_vals, SensorSample, TickInput};
use quadcore::datalog::LOG_END;
use quadcore::fx::Fx;
use quadcore::scheduler::{telemetry_schedule, Watchdog};
use quadcore::ypr::Quaternion;

fn level() -> Quaternion {
    Quaternion { w: Fx::from_int(1), x: Fx::zero(), y: Fx::zero(), z: Fx::zero() }
}

fn still() -> RawSample {
    RawSample { ax: 0, ay: 0, az: 1000, gx: 0, gy: 0, gz: 0 }
}

fn sample(pressure: u32) -> SensorSample {
    SensorSample { quaternion: level(), raw: still(), pressure }
}

fn input(n: usize) -> TickInput {
    TickInput { dt: 10_000, samples: vec![sample(100_000); n], motors: [0, 0, 0, 0], log_slot: vec![] }
}

fn drone_in(mode: Mode) -> Drone {
    let mut d = Drone::new();
    let mut out = Outbox::new();
    d.process_command(Command::ModeChange { mode }, &mut out);
    assert!(d.mode == mode);
    d
}

#[test]
fn safe_operate_zeroes_motors_and_references() {
    let mut d = Drone::new();
    d.js_ypr.yaw = Fx::from_int(1);
    d.js_t = -300;
    let mut out = Outbox::new();
    d.operate(&input(1), &mut out);
    assert_eq!(out.motors, vec![MotorWrite { speeds: [0, 0, 0, 0], delay_after: 0 }]);
    assert_eq!((d.js_ypr.yaw.bits, d.js_ypr.pitch.bits, d.js_ypr.roll.bits, d.js_t), (0, 0, 0, 0));
    assert!(d.mode == Mode::Safe);
}

#[test]
fn full_control_untuned_pitch_passes_stick_through() {
    let mut d = drone_in(Mode::FullControl);
    let mut out = Outbox::new();
    d.process_command(Command::PitchSet { num: 205 }, &mut out); // 0.2 rad
    d.operate(&input(1), &mut out);
    assert_eq!(d.motor_ypr.pitch, Fx::from_int(500).mul(Fx::from_bits(205)));
    assert_eq!(d.motor_ypr.pitch.bits, 102_500);
    assert!(out.sent.contains(&Command::Truepitch { num: d.sensor_ypr.pitch.bits }));
}

#[test]
fn full_control_tuned_pitch_uses_pd() {
    let mut d = drone_in(Mode::FullControl);
    let mut out = Outbox::new();
    d.process_command(Command::PitchPSet { num: 2 }, &mut out);
    d.process_command(Command::PitchSet { num: 1024 }, &mut out);
    d.operate(&input(1), &mut out);
    // 10 * 2 * 1.0 + 500 * 0 * 1.0
    assert_eq!(d.motor_ypr.pitch.bits, 20 * 1024);
    assert_eq!(d.prev_error_ypr.pitch.bits, 1024);
}

#[test]
fn watchdog_forces_panic_after_twenty_silent_checks() {
    let mut d = drone_in(Mode::FullControl);
    let mut w = Watchdog::new();
    let mut out = Outbox::new();
    let mut checks = 0;
    for tick in 0..=400u64 {
        w.check(tick, 3000, &mut d, &mut out);
        if tick % 5 == 0 && tick > 200 {
            checks += 1;
            if checks < 20 {
                assert!(d.mode == Mode::FullControl);
            }
            if checks == 20 {
                assert!(d.mode == Mode::Panic);
            }
        }
        if checks == 25 {
            break;
        }
    }
    assert_eq!(checks, 25);
    assert!(d.mode == Mode::Panic);
    assert_eq!(out.sent.last(), Some(&Command::BatteryCheck { num: 3000 }));
}

#[test]
fn watchdog_reset_by_valid_frames_only() {
    let mut d = drone_in(Mode::Manual);
    let mut w = Watchdog::new();
    let mut p = StreamParser::new();
    let mut out = Outbox::new();
    for tick in 0..=600u64 {
        if tick % 50 == 0 {
            assert_eq!(w.receive(&mut p, &serialize_message(vec![1])), vec![vec![1]]);
        }
        w.check(tick, 3000, &mut d, &mut out);
    }
    assert!(d.mode == Mode::Manual);
    // garbage keeps the link silent
    for tick in 601..=800u64 {
        assert!(w.receive(&mut p, &[0x00, 0x13]).is_empty());
        w.check(tick, 3000, &mut d, &mut out);
    }
    assert!(d.mode == Mode::Panic);
}

#[test]
fn watchdog_unsafe_battery() {
    let mut d = drone_in(Mode::Manual);
    let mut w = Watchdog::new();
    let mut out = Outbox::new();
    w.check(205, 800, &mut d, &mut out);
    assert!(d.mode == Mode::Panic);
    let mut d = drone_in(Mode::Manual);
    w.check(210, 1050, &mut d, &mut out);
    w.check(211, 700, &mut d, &mut out);
    assert!(d.mode == Mode::Manual);
}

#[test]
fn operation_modes_only_leave_for_safe_or_panic() {
    let ops = [Mode::Manual, Mode::Calibration, Mode::YawControlled, Mode::FullControl, Mode::Raw, Mode::Height];
    for m in ops {
        let mut d = Drone::new();
        let mut out = Outbox::new();
        d.process_command(Command::ModeChange { mode: m }, &mut out);
        d.process_command(Command::ModeChange { mode: Mode::LogOut }, &mut out);
        assert!(d.mode == m);
        d.process_command(Command::ModeChange { mode: Mode::Manual }, &mut out);
        assert!(d.mode == m || m == Mode::Manual);
        d.process_command(Command::ModeChange { mode: Mode::Panic }, &mut out);
        assert!(d.mode == Mode::Panic);
        d.process_command(Command::ModeChange { mode: Mode::Height }, &mut out);
        assert!(d.mode == Mode::Height);
        d.process_command(Command::ModeChange { mode: Mode::Safe }, &mut out);
        assert!(d.mode == Mode::Safe);
    }
}

#[test]
fn mode_change_is_reported() {
    let mut d = Drone::new();
    let mut out = Outbox::new();
    d.process_command(Command::ModeChange { mode: Mode::LogOut }, &mut out);
    assert_eq!(out.sent, vec![Command::ModeChange { mode: Mode::LogOut }]);
    d.process_command(Command::ModeChange { mode: Mode::LogOut }, &mut out);
    assert_eq!(out.sent.len(), 1);
}

#[test]
fn settings_apply_only_in_flight_modes() {
    let mut d = Drone::new();
    let mut out = Outbox::new();
    d.process_command(Command::YawPSet { num: 5 }, &mut out);
    assert_eq!(d.yaw_pid.p.bits, 0);
    assert!(out.sent.is_empty());
    let mut d = drone_in(Mode::Manual);
    d.process_command(Command::YawPSet { num: 5 }, &mut out);
    assert_eq!(d.yaw_pid.p.bits, 5 * 1024);
    assert_eq!(out.sent, vec![Command::YawPSet { num: 5 }]);
    d.process_command(Command::ThrottleSet { num: -300 }, &mut out);
    assert_eq!(d.js_t, -300);
    d.process_command(Command::YawSet { num: 300 }, &mut out);
    assert_eq!(out.sent.last(), Some(&Command::YawSet { num: 300 }));
    d.process_command(Command::RollDSet { num: -7 }, &mut out);
    assert_eq!(d.roll_pid.d.bits, -7 * 1024);
    assert_eq!(out.sent.last(), Some(&Command::RollDSet { num: -7 }));
}

#[test]
fn panic_ramps_down_then_safe() {
    let mut d = drone_in(Mode::Panic);
    let mut out = Outbox::new();
    let mut inp = input(0);
    inp.motors = [400, 400, 400, 400];
    d.operate(&inp, &mut out);
    let speeds: Vec<u16> = out.motors.iter().map(|w| w.speeds[0]).collect();
    assert_eq!(speeds, vec![50, 25, 12, 6, 0]);
    let delays: Vec<u32> = out.motors.iter().map(|w| w.delay_after).collect();
    assert_eq!(delays, vec![200, 100, 100, 100, 0]);
    assert!(d.mode == Mode::Safe);
    assert_eq!(out.sent, vec![Command::ModeChange { mode: Mode::Safe }]);
}

#[test]
fn manual_maps_stick_to_motors() {
    let mut d = drone_in(Mode::Manual);
    let mut out = Outbox::new();
    d.process_command(Command::ThrottleSet { num: -400 }, &mut out);
    d.operate(&input(1), &mut out);
    assert_eq!(out.motors.last().unwrap().speeds, [316, 316, 316, 316]);
}

#[test]
fn calibration_averages_and_returns_to_safe() {
    let mut d = drone_in(Mode::Calibration);
    let mut out = Outbox::new();
    d.operate(&input(20), &mut out);
    assert!(d.mode == Mode::Safe);
    assert_eq!(d.height.calibration_p.bits, 100_000 * 1024);
    assert_eq!((d.calibration_ypr.yaw.bits, d.calibration_ypr.pitch.bits, d.calibration_ypr.roll.bits), (0, 0, 0));
    assert_eq!(out.sent.last(), Some(&Command::ModeChange { mode: Mode::Safe }));
}

#[test]
fn height_report_uses_calibration() {
    let mut d = Drone::new();
    d.height.calibration_p = Fx::from_int(1000);
    assert_eq!(d.height_sample(990), Command::Height { num: 10 * 1024 });
    assert_eq!(d.height.current_high.bits, 10 * 1024);
}

#[test]
fn log_out_relays_records_and_wraps() {
    let mut d = drone_in(Mode::LogOut);
    let mut out = Outbox::new();
    let mut inp = input(1);
    inp.log_slot = serialize_message_log(vec![2, 4, 6]);
    d.operate(&inp, &mut out);
    assert_eq!(out.relay, vec![vec![2, 4, 6]]);
    assert_eq!(d.pc_counter, 64);
    d.pc_counter = 0x20_0000 - 64;
    d.operate(&inp, &mut out);
    assert_eq!(d.pc_counter, 0);
    assert_eq!(out.relay.len(), 2);
}

#[test]
fn raw_mode_runs_on_raw_estimate() {
    let mut d = drone_in(Mode::Raw);
    let mut out = Outbox::new();
    d.process_command(Command::RollSet { num: 512 }, &mut out);
    d.operate(&input(1), &mut out);
    assert_eq!(d.motor_ypr.roll.bits, 500 * 512);
    assert_eq!(out.motors.len(), 1);
}

#[test]
fn joystick_echo_only_in_stick_modes() {
    let mut out = Outbox::new();
    let d = Drone::new();
    send_configure_joystick_vals(&d, &mut out);
    assert!(out.sent.is_empty());
    let d = drone_in(Mode::YawControlled);
    send_configure_joystick_vals(&d, &mut out);
    assert_eq!(out.sent.len(), 4);
    send_motor_vals([1, 2, 3, 4], &mut out);
    assert_eq!(out.sent.last(), Some(&Command::Motor4 { num: 4 }));
}

#[test]
fn telemetry_cadence() {
    assert_eq!(telemetry_schedule(18), (true, true, true));
    assert_eq!(telemetry_schedule(9), (false, true, false));
    assert_eq!(telemetry_schedule(4), (true, false, false));
}

#[test]
fn samples_per_mode() {
    assert_eq!(samples_for(Mode::Calibration), 20);
    assert_eq!(samples_for(Mode::Height), 1);
    assert_eq!(samples_for(Mode::Safe), 0);
    assert_eq!(samples_for(Mode::LogOut), 0);
}

fn turned(theta: f64) -> Quaternion {
    let fx = |v: f64| Fx::from_bits((v * 1024.0).round() as i32);
    Quaternion { w: fx((theta / 2.0).cos()), x: Fx::zero(), y: Fx::zero(), z: fx((theta / 2.0).sin()) }
}

#[test]
fn yaw_unwrap_uses_raw_angles_despite_calibration() {
    // raw yaw near +3.0 then near -3.0: one downward crossing
    let mut d = Drone::new();
    d.calibration_ypr.yaw = Fx::from_int(1);
    d.read_sensor_ypr(turned(-3.0));
    assert_eq!(d.yaw_offset.bits, 0);
    d.read_sensor_ypr(turned(3.0));
    assert_eq!(d.yaw_offset.bits, 6432);
    // raw yaw from +2.0 to -2.6 crosses nothing, whatever the calibration
    let mut d = Drone::new();
    d.calibration_ypr.yaw = Fx::from_int(-1);
    d.read_sensor_ypr(turned(-2.0));
    d.read_sensor_ypr(turned(2.6));
    assert_eq!(d.yaw_offset.bits, 0);
}

#[test]
fn mode_request_dropped_silently() {
    let mut d = drone_in(Mode::FullControl);
    let mut out = Outbox::new();
    d.process_command(Command::ModeChange { mode: Mode::Manual }, &mut out);
    assert!(d.mode == Mode::FullControl);
    assert!(out.sent.is_empty());
}

#[test]
fn logging_tick_steps() {
    let mut d = Drone::new();
    assert!(d.log_sample(sample(100_000)));
    let w = d.log_record(vec![1, 2, 3]).unwrap();
    assert_eq!((w.address, w.next, w.erase_first), (0, 64, false));
    assert_eq!(d.current_point, 64);
    d.current_point = LOG_END;
    let w = d.log_record(vec![1]).unwrap();
    assert!(w.erase_first);
    assert_eq!(d.current_point, 64);
    assert!(d.log_record(vec![0; 300]).is_none());
    let mut d = drone_in(Mode::LogOut);
    assert!(!d.log_sample(sample(100_000)));
}

#[test]
fn telemetry_tick_reports() {
    let mut d = drone_in(Mode::Manual);
    d.height.calibration_p = Fx::from_int(1000);
    let mut out = Outbox::new();
    d.tick_telemetry(18, [1, 2, 3, 4], 990, &mut out);
    assert_eq!(out.sent.len(), 4 + 4 + 1);
    assert_eq!(out.sent.last(), Some(&Command::Height { num: 10 * 1024 }));
    let mut d = drone_in(Mode::LogOut);
    let mut out = Outbox::new();
    d.tick_telemetry(18, [1, 2, 3, 4], 990, &mut out);
    assert!(out.sent.is_empty());
}
