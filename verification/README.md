# arles

La lógica de ARLES RELAY, verificada con Verus: validación de correos,
móviles, contactos y empresas; la lectura e importación de tablas de
contactos con su informe de choques; la máquina de estados de los intentos
de envío; las reglas de la capa de datos y de los comandos.

- `src/` es la biblioteca. Cada función pública lleva su contrato, y las
  leyes que relacionan varias funciones están como funciones de prueba
  públicas (`ley_*`).
- `tests/` ejercita la biblioteca con valores concretos.
- `app/` es lo que habla con el mundo: el llavero del sistema, la base de
  datos cifrada con SQLCipher, los archivos que se importan y los
  directorios de cada plataforma. No decide nada: llama a la biblioteca.
