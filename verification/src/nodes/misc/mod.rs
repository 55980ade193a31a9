pub mod binding_rest_element;
