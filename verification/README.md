# Magento Doctor

Diagnostics for Magento 2 stores: what the runtime of a store says (MySQL, Redis, PHP-FPM,
Nginx, the page cache, OpenSearch), correlated with its code, and turned into findings, root
causes and terminal reports.

`src/` is the library. It is written in Verus, which proves the contracts of its functions. Not
proved but stated are those of the wrappers around calls into the standard library, `regex`,
`serde_json`, `roxmltree` and `colored` (in `text`, `bytes`, `patterns`, `json`, `layout` and
`report`): each says in its comment what it claims of the call. Promises that span functions
are public proof functions whose names start with `law_`.
`app/` is the `mdoctor` command around it: files, sockets, MySQL and the command line.

## Layout of the library

| Modules | Subject |
| --- | --- |
| `text`, `bytes`, `number`, `ratio`, `paths`, `fields`, `base64` | text, bytes, numbers and exact fractions |
| `patterns`, `json` | regular expressions and JSON documents |
| `model`, `finding`, `causal` | the model of a store, findings and causal chains |
| `endpoints`, `flags`, `probe_plan` | where services live, and which of them are probed |
| `http_probe`, `redis_inspector`, `nginx_inspector`, `opensearch_inspector`, `php_fpm_inspector`, `fpc_inspector`, `live_inspector` | what services answer, and what that amounts to |
| `env_parser`, `layout`, `redis_check` | `app/etc/env.php`, layout XML and Redis settings |
| `correlation`, `forensics_rules`, `signals`, `investigate` | rules and root-cause analysis |
| `report`, `investigate_fmt`, `service_reports`, `inventory`, `outcomes` | terminal reports and exit codes |

## Conventions

A measurement that was never taken is `None`. Quotients are exact fractions (`ratio::Ratio`),
and statement timings are the picoseconds that MySQL reports. Totals over tables, jobs and
processes that would not fit are capped at the largest count; the counts of a cluster health
document keep their low 32 bits. Of a number in decimal notation fifteen places are kept.

I/O is outside the library. A probe is a decision function: it takes what became of the last
step and says what to do next, or it takes a whole response and says what it means.
