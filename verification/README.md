# feetech_bravo_teleop

Driver for an SO-100 leader arm built from Feetech STS3215 servos, used to teleoperate a
Reach Robotics Bravo 7 arm.

- `src/` is the verified library (Verus): packet framing and checksums of the servo bus
  protocol, the control-table fields, read/write commands, and the request/reply exchange
  as a state machine whose steps the caller performs on a serial port.
- `app/` is the program: command line, serial port, ZeroMQ server, and the floating-point
  kinematics of the arm.
- `tests/` runs the library on concrete packets.
