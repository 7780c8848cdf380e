# rc_ctl

Firmware for an STM32F4 board that reads a DBUS remote-control receiver over
USART6 and blinks an LED; a GPS task reads NMEA sentences over USART3.

- `src/` is the verified library: `rc::RcCtl::update` decodes an 18-byte
  receiver frame (or the second frame of a 36-byte read) into stick channels,
  switch positions, mouse and keyboard state; `rc::RcCtl::accepts` tells
  whether a read holds a frame that `update` takes; `gps::parse_sentence`
  parses the part of a GPS read buffer that a read filled as an NMEA
  sentence, and refuses a GSA sentence with more satellite fields than the
  parser holds. `laws` states what holds across calls of `update`.
- `app/` is the embassy firmware: clock setup, the UART, LED, PWM and debug
  tasks.
- `tests/` runs the decoder and the sentence parser on concrete input.
