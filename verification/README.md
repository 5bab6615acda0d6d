# inkprint-core

The core of a virtual IPP (Internet Printing Protocol) printer that stores received PDF
(and raw PostScript) documents, written in Verus.

- `src/ipp/` — the IPP wire types, the request parser and the response serializer, the
  printer's job table and the operations: Get-Printer-Attributes (with
  `requested-attributes` filtering), Print-Job, Get-Job-Attributes and Validate-Job.
  Parsing a serialized response is proved to give it back when the response holds no
  collection value, no attribute with an empty name or without values, no
  end-of-attributes group, and no name or value longer than 65535 bytes.
- `src/server/` — the decisions of the HTTP front end (which requests are IPP, what a body
  comes to) and the choice of the local LAN address.
- `src/mdns/` — the DNS-SD service names and TXT record the printer is announced with.
- `app/` — the unverified shell: the tokio/hyper server, writing documents to disk, free
  space from `statvfs`, telling the job callback, the mDNS daemon and the
  `start_server` / `stop_server` entry points.
