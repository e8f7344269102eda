# TxWatch

A Stellar Soroban contract monitor and webhook alert engine. `src/` is its core,
verified with Verus; `app/` is the `txwatch` command around it.

- `src/config.rs`, `contract.rs`, `rule.rs`, `network.rs`, `error.rs`: the
  configuration, when it is refused, and with which words.
- `src/webhook.rs`: webhook URLs, as the `url` crate reads them.
- `src/watch.rs`, `poll.rs`, `cursor.rs`, `horizon.rs`: the round of polls, one
  poll as a chain of steps, how far each contract has been read, and what Horizon
  is asked and answers.
- `src/report.rs`, `text.rs`: what the command line prints.
- `src/laws.rs`: what holds of the library as a whole.

The steps of a poll say what is to be done outside (fetch a page, fetch
operations, evaluate rules, give an alert) and take what came of it. `app/` does
these things. It evaluates rules with `txwatch_rules` and sends webhooks with
`txwatch_notifier`, two crates of their own, and it scales payment amounts, which
takes floating point.
