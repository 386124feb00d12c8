# netsim

A network simulator's core, written in Verus.

- `src/` is the verified library: addresses, subnets and routes; packets and frames; plugs
  (two-way channels between simulated devices); interface and machine settings; and the
  decisions of the simulated devices, each with its contract: the Ethernet hub, lossy links,
  the tasks that pump traffic between a TAP/TUN device and its plug, the pcap log's write
  state, and the network's own task supervision.
- `app/` is the asynchronous side that runs those decisions on the event loop: non-blocking
  file descriptors, the TAP/TUN streams, the `Future` and `Sink` implementations of the tasks,
  pcap file output, random draws and the test harness.
- `tests/` exercises the library on concrete values.
