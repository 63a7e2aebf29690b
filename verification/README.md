# block_production

Two sets of rules for a node that produces blocks, written and proved in Verus.

- `distribution_config_parser` brings the configuration of how rewards are shared
  into its normal form. `distribution_laws` states what holds of every normal form.
  `config_map` is the map that the configuration is kept in.
- `decision_maker` decides what is done with buffered packets from a reading of the
  proof-of-history recorder (`poh`) and the cluster's clock parameters (`clock`).
  `decision_laws` states what holds of all decisions.

The commission of a staker is clamped to at least `min_commission_bps` and at most a
whole. An entry that then gives the minimum and no referral says no more than leaving
the staker out would, and is dropped.

`app/` reads and writes the configuration with serde, and reads the recorder's shared
state for the decision maker. It takes the values of one decision together, as one
`PohReading`.
