# ysos

The verified core of a small x86-64 teaching kernel (boot loader, kernel,
user library and shell), written with Verus.

`src/` holds the logic with its contracts and laws:

- `apic`: local-APIC vector-table entries (bit-exact), the register programs
  of APIC initialisation and of sending an interrupt command.
- `input`: the bounded key buffer (a crossbeam `ArrayQueue`), key echo and
  the line editor.
- `process`, `manager`: process records, the process table, the round-robin
  scheduler, killing, spawning and the process listing.
- `syscall`: the system-call services on the process table and the
  dispatcher.
- `serial`, `boot`, `logger`, `regs`, `shell`, `lib_io`, `sync`,
  `unique_id`, `text`: the UART register layout, boot-time address
  arithmetic, log records, the register dump, shell command parsing, the
  user library's requests, and unique ids.

`app/` holds what touches hardware or the console: port and MMIO access,
page tables, interrupts, system-call entry, the logger facade and the shell
loop. `tests/` runs the library on concrete inputs.
