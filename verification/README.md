# ci_oidc

CI/CD identity for an artifact registry.  A pipeline presents the token that its CI
platform issued and receives a short-lived registry token, so that no static secret has to
be stored.

The rules are verified with Verus:

| Module | What it decides |
| --- | --- |
| `admin` | who may configure providers and mappings, and in which steps |
| `service` | what is written to the database, and how its replies are answered |
| `bearer` | which token a request carries |
| `discovery` | where a provider's keys are found, and how long they are kept |
| `token` | when a token is accepted |
| `mapping` | which identity mapping a token falls under |
| `identity` | which service account it stands for |
| `exchange` | the whole exchange, step by step |
| `laws` | what holds of the rules as a whole |
| `storage` | what the endpoints make of the stored rows |
| `json`, `uuid`, `text`, `model`, `error` | the values that the rules are about |

`app/` holds the HTTP endpoints, the database statements and the requests to providers.
It performs the steps that `admin` and `exchange` ask for and hands the replies back.
