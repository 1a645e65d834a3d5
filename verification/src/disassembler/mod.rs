pub mod intel8080;
