//! Verified core of the zbx-np relay: the data it keeps, the rules of its
//! HTTP and MQTT front ends, and the Zabbix sender protocol.
pub mod text;
pub mod auth;
pub mod api;
pub mod settings;
pub mod mqtt;
pub mod web;
pub mod zabbix;
pub mod messages;
