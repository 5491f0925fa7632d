# game_contracts

Verified models of four MultiversX smart contracts of a space strategy game:

- `game_faction`: a faction DAO. The balancer registers members; members make
  stake-weighted proposals and votes; a concluded proposal that wins pays its
  cost from the faction's funds, half to krogan and half to the rewards pool.
- `game_balancer`: assigns players to factions on signed requests (each
  signature usable once, for an hour) and relays settings to every faction.
- `game_minter`: mints the game's material tokens on signed claims and sells
  planets for the platform currency.
- `nft_airdrop`: holds reward pools for NFT holders and pays each holder its
  share on a signed claim, once per pool.

Each contract's storage is a struct whose view is a value of plain sets, maps
and sequences. Each endpoint is a method that takes the call's environment
(caller, block time, payments, the chain's verdict on a signature, the staking
pool's reply) as arguments, and returns the transfers or contract calls for the
chain to carry out. What the chain is asked beforehand is stated too: each
contract's `signature_check` gives the signer and the message of the ed25519
verification, and the faction's `propose_query` and `vote_query` give the
staking pool's `currentUserData` query. Every endpoint's contract is an exact
spec function of the storage and the arguments; a refused call leaves the
storage unchanged. The `laws` module of each contract models a call as a step
of a state machine and proves what holds across any sequence of calls.

Token amounts are `u128`; an amount that would exceed it makes the call fail.
Products on the way to a result (a reward share, a vote share) are computed
exactly by the `arith` module, so only a result beyond `u128` is refused.
