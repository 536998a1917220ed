# virtio_host

The host side of virtio block and file-system devices, verified with Verus.

The library under `src/` makes the decisions; the program around it, under `app/`, makes the system
calls and hands the outcomes back.

| Module | What it holds |
| --- | --- |
| `direct_io`, `transfer_model` | Requests of a guest on a direct-I/O image: alignment, chunking, read-modify-write, and what they do to the image and to guest memory |
| `guest_memory` | The layout of guest memory |
| `vhost_flags`, `exchange`, `vhost_user` | The frontend of a vhost-user session and the conversation that each operation holds with the backend |
| `dirty_log` | The log of guest pages that a backend has written |
| `fs_config`, `fs_request` | Configuration of the virtio-fs device and the request that sets it |
| `fs_model`, `virtio_fs`, `fs_laws` | The virtio-fs device: its abstract state, its operations, and what holds across them |
| `persist` | Saving and restoring the device |
| `align`, `outside` | Rounding; types of other crates that are only carried along |

Operations that need a file or the shared log in the middle, such as taking and finishing a snapshot
or loading backend state, are split into steps. Each step says what it needs next and the program
reports how that went.
