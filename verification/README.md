# sensor_drivers

Verified core of the sensor drivers and control logic of a small underwater
vehicle's firmware, written with Verus.

- `src/mmc5983/`: the MMC5983MA magnetometer. Register model with its
  round-trip laws, the register writes of each driver operation and how the
  driver state follows them, the steps of each operation, SPI/I2C framing,
  decoding of the 18-bit field and offset calibration.
- `src/ms5837/`: the MS5837 pressure sensor. PROM CRC check, command bytes
  and the integer temperature/pressure compensation of the datasheet.
- `src/himax.rs`: CRC-16/CCITT, the start-recording packet of the Grove AI
  module and its start-up search.
- `src/comms.rs`, `src/motor.rs`, `src/imu.rs`: UART message framing, motor
  channel and gain selection, selection and decoding of the newest IMU FIFO
  packet.
- `app/`: the firmware itself: bus transfers over embedded-hal-async,
  embassy tasks, display, ADC and floating-point unit conversions.
- `tests/`: tests of the library on concrete values.
