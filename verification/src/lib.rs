pub mod clock;
pub mod env_map;
pub mod error;
pub mod escalation_resolve;
pub mod escalation_unclaim;
pub mod events_export;
pub mod events_tail;
pub mod export_job_common;
pub mod export_job_create;
pub mod export_job_download;
pub mod export_job_get;
pub mod export_job_list;
pub mod gateway_check;
pub mod gateway_config;
pub mod gateway_create;
pub mod gateway_diff;
pub mod gateway_history;
pub mod gateway_inspect;
pub mod gateway_install;
pub mod gateway_list;
pub mod gateway_reconcile;
pub mod gateway_reload;
pub mod gateway_revert;
pub mod gateway_run;
pub mod gateway_service;
pub mod gateway_start;
pub mod gateway_status;
pub mod gateway_stop;
pub mod gateway_uninstall;
pub mod gateway_upgrade;
pub mod history_condense;
pub mod history_export;
pub mod history_get_session;
pub mod history_laws;
pub mod history_learn;
pub mod history_list_sessions;
pub mod instance_laws;
pub mod instances;
pub mod json;
pub mod percent;
pub mod query;
pub mod report_laws;
pub mod run_laws;
pub mod runtime_upgrade;
pub mod service_laws;
pub mod text;
