# mcp-device-management

An MCP server for device management: an inventory of devices with their
security posture, health checks and remediation tasks, and tools that
inspect and manage the machine it runs on (system stats, processes, network,
security status, packages, restarts and more).

## Layout

- `src/` is the library, verified with Verus. It holds every decision the
  server makes, each with a contract:
  - `store`: the device inventory (one device per id), searches, posture,
    logs, health checks and remediation tasks;
  - `local`: the local machine as a device, built from what its probes read;
  - `fleet`, `intune`, `jamf`, `kandji`: request addresses and the mapping
    of each backend's records to devices;
  - `platform`: for each system tool, the commands to run on each platform
    and the parsing of their output into a report;
  - `server`: the tool inputs and their defaults, confirmation of risky
    actions, and the plans and reports of the remaining tools;
  - `text`: the string and line handling the parsers share;
  - `types`: devices and their parts, with their views;
  - `sys`: the few calls into `std`, `chrono` and `uuid` whose contracts
    are trusted (lower-casing, the clock, random UUIDs).
- `app/` is the program around the library: `main`, the MCP handlers
  (`rmcp`), running commands, reading the environment, HTTP requests to the
  backends and JSON. It runs the commands that the library plans and hands
  their output back to the library's parsers.
- `tests/` holds the tests of the library.

Commands are always run without a shell, except where a plan needs the
shell to expand a pattern (`du` over the subdirectories of a directory).
There the directory is passed as an argument to the script, never spliced
into it.

The local machine is described from what it reports: the posture checks
(disk encryption, firewall, malware protection, pending updates, screen
lock) and the storage figures are read from the system's own commands on
macOS and Linux, and the enterprise backends' devices from their
inventories.
