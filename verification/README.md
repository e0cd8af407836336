# freebox_exporter

A Prometheus exporter for the Freebox, with its logic proved by Verus.

- `src/` is the verified library: the metric maps (connection, system, LAN, LAN
  browser, switch, Wi-Fi, DHCP, storage, downloads) that turn decoded API answers
  into gauge values; the checks on the API's answers; registration and sessions
  (the registration monitor, the session token's renewal, the session password);
  the expiry of managed HTTP clients; API discovery; the
  configuration checks; the command-line defaults; the dry-run document.
  Calls into prometheus, regex, hmac/sha1, chrono and the standard library stand
  behind small trusted wrappers whose contracts say what the call does.
- `app/` is the program around it: command line, configuration file, logging,
  HTTP requests and JSON decoding, the serving loop.
- `tests/` exercises the library on concrete values.
