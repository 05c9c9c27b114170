# gateway

Models and request-shaping rules of a marketplace's GraphQL gateway, written
in Verus and verified.

- `src/` — the verified library: the input and output models, how languages,
  translations and visibilities are written and read, which update inputs
  carry nothing to update, how pages of search results are cut, the checks
  that carts, coupons and chosen delivery packages pass, and the decisions of
  the order, buy-now and cart mutations as step functions.
- `tests/` — tests of the library on concrete values.
- `app/` — the serde side of the models (copies that carry the serde traits,
  with conversions both ways), the GraphQL error payloads, and the price
  arithmetic on floating-point amounts, which the library does not hold.
