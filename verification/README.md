# app_network

The network task of a Mynewt sensor application, as a verified library.

A sensor reading goes either to the collector node (CBOR over nRF24L01, when
this is a sensor node) or to a CoAP server (JSON over ESP8266 WiFi, when this
is a collector or standalone node). The library holds the decisions:

- `src/send.rs`: the send of one reading as a state machine. The caller
  performs each action (the calls into the operating system) and reports
  the result back as an event.
- `src/payload.rs`: the messages, as the sequence of encoder calls that
  composes each of them.
- `src/trace.rs`: what holds of whole runs of the state machine.
- `src/error.rs`, `src/task.rs`: the operating system's error codes and task
  creation.

`app/` performs the calls into Mynewt's C API that the library asks for.
