# safesniff

A low-impact TCP service discovery tool for defensive assessment of an
authorised IPv4 host or small subnet, written in Verus. It prints a JSON
report of the devices it finds, their open services, likely roles and
operating systems, and what deserves review. It never exploits services,
tries credentials, brute-forces, persists, or captures packets, and it
refuses targets larger than `/24`.

## Layout

- `src/` is the verified library; every function carries a contract. Verus
  proves them all except those of three small wrappers around std calls
  (`SystemTime::duration_since`, `Duration::as_secs`, and collecting
  characters into a `String`), whose contracts it takes as given.
  - `text`, `numbers`: text handling and number parsing and printing, with
    the exact behaviour of the std functions they stand for.
  - `network`: prefixes, netmasks, network addresses and host ranges.
  - `mac`: MAC address recognition and normal form, the ARP cache, vendors.
  - `services`: what each TCP port is, how risky it is, how to probe it.
  - `probe`: the commands the scanner runs and what their output means;
    banners and HTTP responses.
  - `assess`: operating-system hints, device role, exposure and the security
    review context of each device.
  - `report`: per-host reports, the device inventory, the summary.
  - `target`: the default route's interface and the local network.
  - `cli`: the command line and the scope of a scan.
  - `clock`: report timestamps.
- `app/` is the program around it: processes, sockets, threads, the clock
  and JSON output.
- `tests/` exercises the library on concrete inputs.
