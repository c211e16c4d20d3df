# huginn

A blue-team posture assessment tool: it collects a host's configuration,
evaluates it against CIS Benchmark and NIST 800-53 controls, and writes a
JSON report, an HTML report and a BloodHound computers file.

The library (`src/`) is written in Verus and proved:

- `models/` — findings, the collected host data, the report (findings ranked
  by severity and rule id, their tally and risk score) and the BloodHound
  shapes;
- `analyzers/` — the CIS rules, each analyzer's findings stated exactly, and
  the registry that runs the analyzers that apply to the host;
- `collectors/` — the collectors and their selection by name;
- `platform/` — everything the collectors make of what Linux and Windows
  report: the parsing of `/etc` and `/proc` files, of `systemctl`,
  `resolvectl`, `dpkg-query`, `ip`, `ufw`, `schtasks` and `secedit` output,
  and the meaning of registry and system API values;
- `output/` — the BloodHound file and the risk band of the HTML report;
- `text.rs`, `num.rs`, `table.rs` — string operations, integer parsing and
  keyed tables, each with its specification.

`app/` holds the program around it: the command line, the reading of files
and the system calls, serialization, templating and the terminal output.
