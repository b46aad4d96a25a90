# j-law-core

Legal calculations under Japanese statutes (consumption tax, real estate
brokerage fees, income tax and income deductions, social insurance premiums,
stamp tax, withholding tax on fees), carried out in integer and fraction
arithmetic only, with every calculation proved against its contract by Verus.

- `src/types/`: amounts, rates, rounding, dates and citations.
- `src/domains/<domain>/`: for each domain its context (the input), its
  parameters (the statutory values of a period), its policy (the decisions a
  caller may change) and its calculator.
- `src/flags.rs`: the sets of legal flags the contexts carry.
- `src/interface.rs`: integer codes and flat inputs of the C interface.
- `app/`: the error types with `std::error::Error`, for callers that need it.

A policy is a trait that callers may implement. The calculations ask the
policy for its decisions and state their result under the answers its
methods give for the arguments they are handed; a `*_with` function takes
those answers as arguments and states the result exactly.
