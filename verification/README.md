# device_health

Reads the SMART / health data of storage devices into one normalised form, `DeviceHealth`.

* Devices with a `/dev` node (SAS, SATA, kernel NVMe) are read through `smartctl --json --all`.
* VFIO-bound NVMe devices are read from the raw SMART log page and Identify Controller data.

`src/` is the library, verified with Verus: decoding (`nvme`, `json`, `report`), the rules that
turn readings into health (`smartctl`), the identity cache (`cache`), and the laws that hold of it
all (`laws`). What it takes on trust are the contracts of a few functions of `serde_json` (in
`json`) and of two functions of the standard library (in `text`).

`app/` runs smartctl and keeps the identity cache of the process. `tests/` runs the library on
sample data.
