# sep2_bridge

A bridge between an IEEE 2030.5 (SEP2 / CSIP-AUS) server and a DER that speaks
SunSpec Modbus. The server's programs, controls and curves are kept in a model;
the scheduler layers the controls that apply at each instant into parameters;
the parameters are translated to SunSpec points and written to the device; the
device's status, settings, capabilities and readings go back to the server.

- `src/` is the library, verified with Verus: the model and its update rules
  (`sep2_model`, `links`, `store`), the layering and scheduling (`attributes`,
  `scheduler`, `scheduler/memory`), the translation between SEP2 and SunSpec
  (`translation`, `scaled_value`, `device_writes`), the decisions of the two
  connection tasks (`sep2_connection/session`, `modbus_connection/link`), the
  dispatch between tasks (`dispatch`) and the configuration values (`config`).
- `app/` is the service around it: command line, channels and tasks, HTTP and
  Modbus I/O, metrics, and the conversions between the library's types and
  those of `sep2_common` and `sunspec`.
- `tests/` exercise the library.
