# ironrdp_web_drive

Drive redirection (RDPDR) for a browser-hosted RDP client, with its logic
verified by Verus.

* `src/` is the verified library. `backend` answers each server drive IRP
  from the open-`file_id` table (`state`) where that alone decides it, and
  otherwise names the filesystem operation to run and how to continue once
  its result is back; `composite` routes between a printer member and a drive
  member; `path`, `wildcard`, `info` and `protocol` hold path normalization,
  DOS wildcard matching, the information buffers and the protocol constants;
  `queue` is the FIFO the IRP work runs on; `fs_steps` orders the browser
  calls of a rename and a file open; `tls` takes the SNI name and the
  server public key from the TLS handshake; `lifecycle` states the laws that
  relate successive IRPs.
* `app/` is the browser side: the File System Access API filesystem, the
  `ironrdp` RDPDR backends that run the library's decisions on the wasm event
  loop and convert to and from PDUs, and the TLS upgrade.
* `tests/` exercise the library against an in-memory filesystem.
