# mqtt

An MQTT 5 packet library verified with Verus, and a small client program around it.

- `src/` is the library. Every packet (CONNECT, CONNACK, PUBLISH, PUBACK, SUBSCRIBE,
  SUBACK, UNSUBSCRIBE, UNSUBACK, PINGREQ, PINGRESP, DISCONNECT, AUTH) is written to bytes
  and read back from a byte stream; the contracts state the exact bytes written and the
  exact value read (or error), and the `lemma_*_roundtrip` proofs state that reading back
  what was written gives the packet back. The library also holds the property model
  (`control_packets::mqtt_packet::property_model`), the reason codes, the flag helpers, the
  configuration readers (`config`), the lines of the action log (`actions`) and what a
  client builds and decides between its reads and writes (`client`).
- `tests/` exercises the library on concrete values.
- `app/` is the client program: files, sockets, threads and printing.
