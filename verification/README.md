# weavefront

A self-hosted panel that deploys static sites to IPFS (through Pinata),
Arweave (through ArDrive Turbo) and Filecoin (through Lighthouse). The
library in `src/` holds the panel's logic with its contracts, checked by
Verus; `app/` is the server around it (environment, SQLite, HTTP clients,
routes).

- `src/text.rs`: decimal and hexadecimal text of numbers, reading a port.
- `src/config.rs`: settings and their defaults (gateways, upload limit), the
  listen address.
- `src/models/`: projects, deployments, targets, and the stored status names.
- `src/services/store.rs`: the rows stored for projects and deployments and
  what they read back as; project identifiers and timestamps.
- `src/services/ipfs.rs`, `src/services/pinata.rs`: the addresses of the
  IPFS node's calls and of the gateways; `src/services/upload.rs`: the error
  text for a refused upload.
- `src/middleware.rs`: the bearer-token check.
- `src/routes/`: the replies of the endpoints; `deploy.rs` is the deploy
  endpoint as a step function from stage and event to next stage and action.
