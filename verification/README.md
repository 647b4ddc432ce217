# docbox-lambda-cli

A command line client that manages a docbox installation through its management Lambda function:
it creates, lists, shows, migrates and deletes tenants, and creates and migrates the root database.

- `src/` is the library: what each command asks of the management service, what the function is
  invoked with, what its replies mean, and what is printed of them for a person or as JSON. It is
  verified with [Verus](https://github.com/verus-lang/verus), resting on the wrappers around other
  crates and std that are marked `external_body`: what these state is believed, not proved.
- `app/` is the program around it: argument parsing, AWS, the file system and the terminal.
- `tests/` runs the library on concrete values.

| Module | Content |
| --- | --- |
| `cli` | the arguments and how they are sorted |
| `aws_config` | what is asked of the AWS configuration |
| `commands` | the commands of the management service |
| `interface` | requests to the management service and its replies |
| `lambda_transport` | the exchange with the Lambda function |
| `session` | how a command is carried out, step by step |
| `report` | what is printed of a reply or a failure |
| `table` | tables for a person |
| `documents`, `json` | JSON documents |
| `tenant_id` | the text of tenant identifiers |
