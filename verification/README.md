# uacpi

Rust bindings for the uACPI library. The parts that decide something live in
`src/` and carry proved contracts.

- `src/` is the verified library:
  - `status`: uACPI status codes, `UacpiError`, and the mapping between them.
  - `types`: log and init levels, Generic Address Structures and their
    address spaces, the PCI bit fields, object types and the other codes of
    the interface.
  - `tables`: the ACPI table header, the table record, the `AcpiTable*`
    traits, counting and collecting the tables that lookups find, and the
    HPET, ECDT and template table types, read from the table's bytes.
  - `interface`: the handle, address and status types of the C interface,
    init parameters, sleep states, namespace walk decisions and id strings.
  - `kernel_api`: what the host hands back for a mapping request.
  - `codes`: the numeric codes of the uACPI C headers.
- `app/` talks to the uACPI C library and the host kernel: the C entry
  points, table lookups, AML objects, initialisation, sleep, device walks and
  the kernel API callbacks. It hands the library plain values.
- `tests/` runs the library on concrete tables and codes.
